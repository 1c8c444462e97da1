use lib::unwind::context::{StackFrame, UnwindContext, REG_SP};
use lib::unwind::ehframe::{
    CommonInformationEntry, EhFrameHeader, FrameDescriptionEntry, FrameDescriptionEntryPointer,
    UnwindIndex,
};
use lib::unwind::machine::{Delta, ExecutionResult, Operations};
use lib::unwind::reader::{BytePeeker, DwarfReader};
use lib::unwind::UnwindError;

const BASE: usize = 0x1000;

/// A CIE at BASE ("zR", pc-relative sdata4 pointers) and an FDE right
/// after it, covering 0x4000..0x4040.
fn eh_frame() -> Vec<u8> {
    let mut b = vec![
        0x14, 0, 0, 0, // length
        0, 0, 0, 0, // CIE id
        1, // version
        b'z', b'R', 0, // augmentation
        0x01, // code alignment 1
        0x78, // data alignment -8
        0x10, // return address column 16
        0x01, // augmentation data length
        0x1b, // FDE pointers: pc-relative sdata4
        0x0c, 0x07, 0x08, // def_cfa r7+8
        0x90, 0x01, // offset r16 at cfa-8
        0, 0, // padding
    ];
    assert_eq!(b.len(), 24);
    // The FDE.
    b.extend_from_slice(&[0x10, 0, 0, 0]); // length
    b.extend_from_slice(&[0x1c, 0, 0, 0]); // back to the CIE
    let pc_field = BASE + b.len();
    let rel = (0x4000i64 - pc_field as i64) as i32;
    b.extend_from_slice(&rel.to_le_bytes());
    b.extend_from_slice(&0x40i32.to_le_bytes());
    b.push(0); // augmentation data length
    b.extend_from_slice(&[0x44, 0x0e, 0x10]); // advance 4; def_cfa_offset 16
    b
}

const HDR: usize = BASE + 0x100;
const STACK: usize = 0x8000;

/// `.eh_frame` at BASE followed, at HDR, by an `.eh_frame_hdr` whose table
/// (udata4, absolute) sends 0x4000, 0x5000 and 0x6000 to the FDE.
fn tables() -> DwarfReader<BytePeeker> {
    let mut mem = eh_frame();
    mem.resize(0x100, 0);
    mem.extend_from_slice(&[1, 0x03, 0x03, 0x03]);
    mem.extend_from_slice(&(BASE as u32).to_le_bytes());
    mem.extend_from_slice(&3u32.to_le_bytes());
    for start in [0x4000u32, 0x5000, 0x6000] {
        mem.extend_from_slice(&start.to_le_bytes());
        mem.extend_from_slice(&((BASE + 24) as u32).to_le_bytes());
    }
    DwarfReader::from_peeker(HDR, BytePeeker { base: BASE, bytes: mem })
}

fn stack_with(word_at: usize, word: u64) -> BytePeeker {
    let mut bytes = vec![0u8; 0x108];
    bytes[word_at - STACK..word_at - STACK + 8].copy_from_slice(&word.to_le_bytes());
    BytePeeker { base: STACK, bytes }
}

fn frame(sp: usize, pc: usize) -> StackFrame {
    let mut regs = vec![0usize; 17];
    regs[REG_SP] = sp;
    StackFrame { regs, pc }
}

#[test]
fn eh_frame_header_table() {
    let hdr = EhFrameHeader::parse(tables());
    assert_eq!(
        hdr.get(1),
        Some(UnwindIndex { addr_offset: 0x5000, insn: FrameDescriptionEntryPointer(BASE + 24) })
    );
    assert_eq!(hdr.get(3), None);
    assert_eq!(hdr.find(0x4008).unwrap().addr_offset, 0x4000);
    assert_eq!(hdr.find(0x5010).unwrap().addr_offset, 0x5000);
}

#[test]
fn unwind_one_frame() {
    let hdr = EhFrameHeader::parse(tables());
    // After the push at 0x4004 the return address sits at cfa - 8.
    let mut ctx = UnwindContext::new_boxed(
        frame(STACK + 0x10, 0x4008),
        STACK..STACK + 0x100,
        tables(),
        stack_with(STACK + 0x18, 0x4321),
    );
    assert_eq!(ctx.cfa, STACK + 0x10);
    let fde = ctx.frame_entry(&hdr).unwrap().unwrap();
    assert_eq!(fde.pc, 0x4000..0x4040);
    assert!(ctx.advance(&fde).is_ok());
    assert_eq!(ctx.cfa, STACK + 0x20);
    assert_eq!(ctx.frame.sp(), STACK + 0x20);
    assert_eq!(ctx.frame.pc(), 0x4321);
    assert_eq!(ctx.frame.regs[16], 0x4321);
    // The caller's pc is not covered by the entry the table gives.
    assert!(matches!(ctx.frame_entry(&hdr), Err(UnwindError::InvalidPc(0x4321))));
    // Past the outermost frame.
    ctx.frame.pc = 0;
    assert!(matches!(ctx.frame_entry(&hdr), Ok(None)));
}

#[test]
fn apply_reads_inside_the_stack_only() {
    // The return address would be read below the stack.
    let mut ctx = UnwindContext::new_boxed(
        frame(STACK - 0x10, 0x4008),
        STACK..STACK + 0x100,
        tables(),
        stack_with(STACK, 0),
    );
    let fde = FrameDescriptionEntryPointer(BASE + 24).parse(tables()).unwrap();
    match ctx.advance(&fde) {
        Err(UnwindError::MemoryOutOfBound(addr, range)) => {
            assert_eq!(addr, STACK - 8);
            assert_eq!(range, STACK..STACK + 0x100);
        }
        _ => panic!("expected an out-of-bound read"),
    }
}

#[test]
fn rules_that_change_nothing_cannot_unwind() {
    let cie = CommonInformationEntry {
        cie_id: 0,
        code_align_factor: 1,
        data_align_factor: -8,
        ret_addr_column: 16,
        initial_instructions: Operations::new(vec![0x0c, 0x07, 0x00]),
        lsda_encoding: None,
        fde_encoding: None,
        personality: None,
    };
    let fde = FrameDescriptionEntry {
        cie,
        pc: 0x4000..0x4100,
        lsda: None,
        instructions: Operations::new(vec![]),
    };
    let mut f = frame(STACK + 0x10, 0x4008);
    f.regs[16] = 0x4008;
    let mut ctx =
        UnwindContext::new_boxed(f, STACK..STACK + 0x100, tables(), stack_with(STACK, 0));
    assert!(matches!(ctx.advance(&fde), Err(UnwindError::UnwindablePc(0x4008))));
    // Applying rules directly: a lost register becomes zero, a moved one is copied.
    let mut res = ExecutionResult::new_boxed(16, 0x4000);
    res.state.deltas[17] = Delta::Reg(6);
    res.state.cfa_off_column = 0x10;
    res.state.deltas[3] = Delta::Undef;
    res.state.deltas[5] = Delta::Reg(6);
    let mut f = frame(STACK + 0x10, 0x4008);
    f.regs[3] = 33;
    f.regs[6] = STACK + 0x40;
    f.regs[16] = 0x7777;
    let mut ctx =
        UnwindContext::new_boxed(f, STACK..STACK + 0x100, tables(), stack_with(STACK, 0));
    assert!(res.apply(&mut ctx).is_ok());
    assert_eq!(ctx.cfa, STACK + 0x50);
    assert_eq!(ctx.frame.regs[3], 0);
    assert_eq!(ctx.frame.regs[5], STACK + 0x40);
    assert_eq!(ctx.frame.pc, 0x7777);
    // A rule on no register cannot be applied.
    res.state.deltas[17] = Delta::Same;
    assert!(matches!(res.apply(&mut ctx), Err(UnwindError::InvalidApplication)));
}
