//! Decoding the guest instruction that caused an exit.
use vstd::prelude::*;
use iced_x86::{Decoder, DecoderOptions, Instruction};

verus! {

/// `iced_x86::Instruction`, a decoded instruction.
#[verifier::external_type_specification]
#[verifier::external_body]
pub struct ExInstruction(Instruction);

/// The longest x86 instruction the exit path reads, in bytes.
pub const MAX_INSTRUCTION_LEN: usize = 11;

/// The instruction `iced_x86` decodes from `bytes` in 64-bit mode at
/// address 0.
pub uninterp spec fn decoded_instruction(bytes: Seq<u8>) -> Instruction;

/// Decodes the first instruction of `bytes` in 64-bit mode at address 0,
/// with `iced_x86::Decoder::with_ip(64, bytes, 0, DecoderOptions::NONE)`
/// followed by `Decoder::decode`. Claimed: the result depends on the bytes
/// alone (decoding is a function of its input); what it is, is not stated.
#[verifier::external_body]
fn decode_64(bytes: &[u8]) -> (r: Instruction)
    ensures
        r == decoded_instruction(bytes@),
{
    Decoder::with_ip(64, bytes, 0, DecoderOptions::NONE).decode()
}

/// The bytes the decoder sees for an instruction of `len` bytes whose
/// bytes are `guest`: those bytes, then zeros up to the longest
/// instruction.
pub open spec fn instruction_window(guest: Seq<u8>, len: int) -> Seq<u8> {
    Seq::new(MAX_INSTRUCTION_LEN as nat, |i: int| if i < len { guest[i] } else { 0u8 })
}

/// The buffer of the instruction whose `len` bytes are at the start of
/// `guest` (see [`instruction_window`]).
pub fn instruction_bytes(len: usize, guest: &[u8]) -> (r: Vec<u8>)
    requires
        len <= MAX_INSTRUCTION_LEN,
        guest@.len() >= len,
    ensures
        r@ == instruction_window(guest@, len as int),
{
    let mut r: Vec<u8> = Vec::new();
    let mut i: usize = 0;
    while i < MAX_INSTRUCTION_LEN
        invariant
            i <= MAX_INSTRUCTION_LEN,
            len <= MAX_INSTRUCTION_LEN,
            guest@.len() >= len,
            r@.len() == i,
            forall|k: int| 0 <= k < i ==> r@[k] == (if k < len { guest@[k] } else { 0u8 }),
        decreases MAX_INSTRUCTION_LEN - i,
    {
        if i < len {
            r.push(guest[i]);
        } else {
            r.push(0u8);
        }
        i = i + 1;
    }
    assert(r@ =~= instruction_window(guest@, len as int));
    r
}

/// The instruction at the guest's instruction pointer, whose `len` bytes
/// (at most the longest instruction) are at the start of `guest`.
pub fn get_instruction(len: usize, guest: &[u8]) -> (r: Instruction)
    requires
        len <= MAX_INSTRUCTION_LEN,
        guest@.len() >= len,
    ensures
        r == decoded_instruction(instruction_window(guest@, len as int)),
{
    let bytes = instruction_bytes(len, guest);
    decode_64(bytes.as_slice())
}

} // verus!
