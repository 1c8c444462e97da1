use lib::unwind::ehframe::{register_of, CommonInformationEntry, FrameDescriptionEntry};
use lib::unwind::machine::{Delta, ExecutionCursor, ExecutionResult, Opcode, Operations};
use lib::unwind::reader::{get_sleb128, get_uleb128, BytePeeker, DwarfReader};
use lib::unwind::UnwindError;

fn cie(initial: Vec<u8>) -> CommonInformationEntry {
    CommonInformationEntry {
        cie_id: 0,
        code_align_factor: 1,
        data_align_factor: -8,
        ret_addr_column: 16,
        initial_instructions: Operations::new(initial),
        lsda_encoding: None,
        fde_encoding: None,
        personality: None,
    }
}

#[test]
fn leb128_numbers() {
    assert_eq!(get_uleb128(&[0xe5, 0x8e, 0x26]), Some((624485, 3)));
    assert_eq!(get_uleb128(&[0x7f, 0x01]), Some((127, 1)));
    assert_eq!(get_uleb128(&[0x80]), None);
    assert_eq!(get_sleb128(&[0x7f]), Some((-1, 1)));
    assert_eq!(get_sleb128(&[0xc0, 0xbb, 0x78]), Some((-123456, 3)));
}

#[test]
fn dwarf_reader_reads_little_endian() {
    let p = BytePeeker { base: 0x1000, bytes: vec![0x34, 0x12, 0xe5, 0x8e, 0x26, 0x7f] };
    let mut r = DwarfReader::from_peeker(0x1000, p);
    assert_eq!(r.read_u16(), Some(0x1234));
    assert_eq!(r.read_uleb128(), Some(624485));
    assert_eq!(r.read_sleb128(), Some(-1));
    assert_eq!(r.read_u8(), None);
}

#[test]
fn cie_program_rules() {
    // def_cfa r7+8; offset r16 at cfa-8.
    let c = cie(vec![0x0c, 0x07, 0x08, 0x90, 0x01]);
    let base = ExecutionResult::new_boxed(16, 0x4000);
    let r = c.initial_instructions.run_from_result(usize::MAX, base, &c).ok().unwrap();
    assert_eq!(r.state.deltas[17], Delta::Reg(7));
    assert_eq!(r.state.cfa_off_column, 8);
    assert_eq!(r.state.deltas[16], Delta::CfaRelative((-8isize) as usize));
    assert_eq!(r.state.deltas[3], Delta::Same);
}

#[test]
fn fde_runs_up_to_pc() {
    let c = cie(vec![0x0c, 0x07, 0x08, 0x90, 0x01]);
    // advance 4; def_cfa_offset 16; advance 10; def_cfa_offset 24; remember; restore.
    let fde = FrameDescriptionEntry {
        cie: c,
        pc: 0x4000..0x4100,
        lsda: None,
        instructions: Operations::new(vec![0x44, 0x0e, 0x10, 0x4a, 0x0e, 0x18, 0x0a, 0x0b]),
    };
    let at_start = fde.run(0x4000).ok().unwrap();
    assert_eq!(at_start.state.cfa_off_column, 8);
    let after_push = fde.run(0x4004).ok().unwrap();
    assert_eq!(after_push.state.cfa_off_column, 16);
    let later = fde.run(0x4020).ok().unwrap();
    assert_eq!(later.state.cfa_off_column, 24);
    assert_eq!(later.state.deltas[16], Delta::CfaRelative((-8isize) as usize));
}

#[test]
fn cursor_steps_and_errors() {
    let base = ExecutionResult::new_boxed(16, 0);
    let mut cur = ExecutionCursor {
        pos: 0,
        ip: 0,
        initial: base,
        result: base,
        args_size: None,
        stack: Vec::new(),
    };
    let ops = [0x0a, 0x07, 0x03, 0x0b, 0xc3, 0x17];
    assert!(matches!(cur.step(&ops, 1, -8), Ok(true)));
    assert_eq!(cur.stack.len(), 1);
    assert!(matches!(cur.step(&ops, 1, -8), Ok(true)));
    assert_eq!(cur.result.state.deltas[3], Delta::Undef);
    assert!(matches!(cur.step(&ops, 1, -8), Ok(true)));
    assert_eq!(cur.result.state.deltas[3], Delta::Same);
    assert!(cur.stack.is_empty());
    assert!(matches!(cur.step(&ops, 1, -8), Ok(true)));
    assert!(matches!(cur.step(&ops, 1, -8), Err(UnwindError::BadOpcode(0x17))));
    let empty: [u8; 0] = [];
    cur.pos = 0;
    assert!(matches!(cur.step(&empty, 1, -8), Ok(false)));
    cur.pos = 0;
    assert!(matches!(cur.step(&[0x0b], 1, -8), Err(UnwindError::InvalidOp(0x0b))));
    cur.pos = 0;
    assert!(matches!(cur.step(&[0x07, 0x20], 1, -8), Err(UnwindError::BadRegister)));
    cur.pos = 0;
    assert!(matches!(cur.step(&[0x0e], 1, -8), Err(UnwindError::ParsingFailure)));
    assert_eq!(Opcode::try_from(0x45), Some(Opcode::AdvanceLoc));
    assert_eq!(Opcode::try_from(0x14), None);
    assert!(register_of(16).is_ok());
    assert!(register_of(17).is_err());
}
