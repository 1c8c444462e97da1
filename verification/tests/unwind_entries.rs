use lib::unwind::ehframe::{CommonInformationEntryPointer, FrameDescriptionEntryPointer};
use lib::unwind::reader::{Application, BytePeeker, DwarfReader, Encoding, Format};

const BASE: usize = 0x1000;

/// A CIE at BASE ("zR", pc-relative sdata4 pointers) and an FDE right
/// after it, covering 0x4000..0x4040.
fn eh_frame() -> Vec<u8> {
    let mut b = vec![
        0x14, 0, 0, 0, // length
        0, 0, 0, 0, // CIE id
        1, // version
        b'z', b'R', 0, // augmentation
        0x01, // code alignment 1
        0x78, // data alignment -8
        0x10, // return address column 16
        0x01, // augmentation data length
        0x1b, // FDE pointers: pc-relative sdata4
        0x0c, 0x07, 0x08, // def_cfa r7+8
        0x90, 0x01, // offset r16 at cfa-8
        0, 0, // padding
    ];
    assert_eq!(b.len(), 24);
    // The FDE.
    b.extend_from_slice(&[0x10, 0, 0, 0]); // length
    b.extend_from_slice(&[0x1c, 0, 0, 0]); // back to the CIE
    let pc_field = BASE + b.len();
    let rel = (0x4000i64 - pc_field as i64) as i32;
    b.extend_from_slice(&rel.to_le_bytes());
    b.extend_from_slice(&0x40i32.to_le_bytes());
    b.push(0); // augmentation data length
    b.extend_from_slice(&[0x44, 0x0e, 0x10]); // advance 4; def_cfa_offset 16
    b
}

fn reader(bytes: Vec<u8>) -> DwarfReader<BytePeeker> {
    DwarfReader::from_peeker(BASE, BytePeeker { base: BASE, bytes })
}

#[test]
fn parse_common_information_entry() {
    let cie = CommonInformationEntryPointer(BASE).parse(reader(eh_frame())).unwrap();
    assert_eq!(cie.cie_id, 0);
    assert_eq!(cie.code_align_factor, 1);
    assert_eq!(cie.data_align_factor, -8);
    assert_eq!(cie.ret_addr_column, 16);
    assert_eq!(
        cie.fde_encoding,
        Some(Encoding { format: Format::SignedData4, application: Application::PcRelative })
    );
    assert_eq!(cie.lsda_encoding, None);
    assert_eq!(cie.personality, None);
    assert_eq!(cie.initial_instructions.ops, vec![0x0c, 0x07, 0x08, 0x90, 0x01, 0, 0]);
}

#[test]
fn parse_frame_description_entry_and_run_it() {
    let fde = FrameDescriptionEntryPointer(BASE + 24).parse(reader(eh_frame())).unwrap();
    assert_eq!(fde.pc, 0x4000..0x4040);
    assert_eq!(fde.lsda, None);
    assert_eq!(fde.instructions.ops, vec![0x44, 0x0e, 0x10]);
    assert_eq!(fde.cie.data_align_factor, -8);
    assert_eq!(fde.run(0x4000).ok().unwrap().state.cfa_off_column, 8);
    assert_eq!(fde.run(0x4008).ok().unwrap().state.cfa_off_column, 16);
}

#[test]
fn rejected_entries() {
    // Another version.
    let mut b = eh_frame();
    b[8] = 2;
    assert!(CommonInformationEntryPointer(BASE).parse(reader(b)).is_none());
    // An unknown augmentation letter.
    let mut b = eh_frame();
    b[10] = b'x';
    assert!(CommonInformationEntryPointer(BASE).parse(reader(b)).is_none());
    // A CIE that does not say how FDE pointers are encoded: "z" with no
    // data (the old 'R' and its byte become instruction bytes).
    let mut b = eh_frame();
    b[10] = 0;
    b[11] = 0x01;
    assert!(FrameDescriptionEntryPointer(BASE + 24).parse(reader(b)).is_none());
    // A record cut short by the end of the bytes.
    let b = eh_frame()[..30].to_vec();
    assert!(FrameDescriptionEntryPointer(BASE + 24).parse(reader(b)).is_none());
}

#[test]
fn cie_with_language_data_and_personality() {
    let b = vec![
        0x1c, 0, 0, 0, // length 28
        0, 0, 0, 0, // id
        1, // version
        b'z', b'P', b'L', b'R', 0, // augmentation
        0x01, 0x78, 0x10, // alignments, return column
        0x07, // augmentation data length
        0x03, 0x78, 0x56, 0x34, 0x12, // personality: udata4 0x12345678
        0x03, // LSDA: udata4
        0x1b, // FDE pointers
        0x0c, 0x07, 0x08, // instructions
        0, 0, 0, 0, // padding
    ];
    assert_eq!(b.len(), 32);
    let cie = CommonInformationEntryPointer(BASE).parse(reader(b)).unwrap();
    assert_eq!(cie.personality, Some(0x1234_5678));
    assert_eq!(
        cie.lsda_encoding,
        Some(Encoding { format: Format::UnsignedData4, application: Application::Absoulte })
    );
    assert_eq!(cie.initial_instructions.ops, vec![0x0c, 0x07, 0x08, 0, 0, 0, 0]);
}
