use iced_x86::Code;
use lib::kev::decode::{get_instruction, instruction_bytes};

#[test]
fn decode_guest_instructions() {
    // vmcall, followed by bytes past its length.
    let insn = get_instruction(3, &[0x0f, 0x01, 0xc1, 0xff, 0xff]);
    assert_eq!(insn.code(), Code::Vmcall);
    assert_eq!(insn.len(), 3);
    // out dx, al
    let insn = get_instruction(1, &[0xee, 0x90]);
    assert_eq!(insn.code(), Code::Out_DX_AL);
    // A truncated instruction is padded with zeros.
    assert_eq!(instruction_bytes(2, &[1, 2, 3]), vec![1, 2, 0, 0, 0, 0, 0, 0, 0, 0, 0]);
    let insn = get_instruction(0, &[]);
    assert_eq!(insn.code(), Code::Add_rm8_r8);
}
