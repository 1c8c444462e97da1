//! Unwinding frames: applying the rules of an address to the registers of a
//! frame, and walking from one frame to its caller.
use vstd::prelude::*;
use core::ops::Range;
use super::machine::{
    Delta, ExecutionResult, RunResult, DWARF_CFA_REG_COLUMN, NUM_COLUMNS, NUM_REGS,
};
use super::reader::{opt_le, peek_le_u64, peek_range, DwarfReader, Peeker};
use super::ehframe::{fde_rules, EhFrameHeader, FrameDescriptionEntry};
use super::entries::{dec_fde, fde_fields, Decoded};
use super::UnwindError;

verus! {

broadcast use vstd::array::group_array_axioms;

/// DWARF number of the stack pointer.
pub const REG_SP: usize = 7;

/// The registers of a frame, by DWARF register number, and its program
/// counter.
#[derive(Debug)]
pub struct StackFrame {
    pub regs: Vec<usize>,
    pub pc: usize,
}

impl StackFrame {
    /// A frame holds one value per register.
    pub open spec fn wf(&self) -> bool {
        self.regs.len() == NUM_REGS
    }

    /// The program counter.
    pub fn pc(&self) -> (r: usize)
        ensures
            r == self.pc,
    {
        self.pc
    }

    /// The stack pointer.
    pub fn sp(&self) -> (r: usize)
        requires
            self.wf(),
        ensures
            r == self.regs@[REG_SP as int],
    {
        self.regs[REG_SP]
    }
}

/// The state of an unwinding: the frame reached, the stack's range, the
/// canonical frame address of the frame, the reader of the unwind tables,
/// and the memory of the stack.
pub struct UnwindContext<T: Peeker> {
    pub frame: StackFrame,
    pub sp_range: Range<usize>,
    pub cfa: usize,
    pub reader: DwarfReader<T>,
    pub stack: T,
}

/// Reading the word at `addr` of a stack in `range` whose memory `stack`
/// sees: the little-endian word there, or an error outside the range.
pub open spec fn stack_word<T: Peeker>(stack: T, range: Range<usize>, addr: usize) -> Result<usize, UnwindError> {
    if range.start <= addr < range.end {
        Ok(opt_le(peek_range(stack, addr as int, 8))->0 as usize)
    } else {
        Err(UnwindError::MemoryOutOfBound(addr, range))
    }
}

impl<T: Peeker> UnwindContext<T> {
    /// The context is usable: the frame holds all registers, and every word
    /// that starts inside the stack's range can be read.
    pub open spec fn wf(&self) -> bool {
        &&& self.frame.wf()
        &&& self.sp_range.end + 8 <= usize::MAX
        &&& forall|a: int| self.sp_range.start <= a < self.sp_range.end + 8 ==> (#[trigger] self.stack.spec_peek(a)) is Some
    }

    /// A context starting from `frame`, whose canonical frame address is its
    /// stack pointer.
    pub fn new_boxed(frame: StackFrame, sp_range: Range<usize>, reader: DwarfReader<T>, stack: T) -> (r: Self)
        requires
            frame.wf(),
        ensures
            r.frame == frame,
            r.sp_range == sp_range,
            r.cfa == frame.regs@[REG_SP as int],
            r.reader == reader,
            r.stack == stack,
    {
        let cfa = frame.sp();
        UnwindContext { frame, sp_range, cfa, reader, stack }
    }

    /// The word at `addr` of the stack.
    pub fn read_mem(&self, addr: usize) -> (r: Result<usize, UnwindError>)
        requires
            self.wf(),
        ensures
            r == stack_word(self.stack, self.sp_range, addr),
    {
        if self.sp_range.start <= addr && addr < self.sp_range.end {
            assert(peek_range(self.stack, addr as int, 8) is Some) by {
                assert forall|k: int| 0 <= k < 8 implies (#[trigger] self.stack.spec_peek(addr + k)) is Some by {
                    assert(self.sp_range.start <= addr + k < self.sp_range.end + 8);
                }
            }
            let v = peek_le_u64(&self.stack, addr).unwrap();
            Ok(v as usize)
        } else {
            Err(UnwindError::MemoryOutOfBound(addr, self.sp_range.start..self.sp_range.end))
        }
    }
}

/// The canonical frame address the rules `res` give a frame whose registers
/// are `regs` and whose previous canonical frame address is `cfa`, with the
/// registers after that step: a rule on the stack pointer that keeps it
/// offsets the previous address and updates the stack pointer; a rule on
/// another register offsets its value; any other rule cannot be applied.
pub open spec fn apply_cfa(res: ExecutionResult, regs: Seq<usize>, cfa: usize) -> Result<(Seq<usize>, usize), UnwindError> {
    let off = res.state.cfa_off_column;
    match res.state.deltas@[DWARF_CFA_REG_COLUMN as int] {
        Delta::Reg(s) => if s == REG_SP && res.state.deltas@[REG_SP as int] == Delta::Same {
            let c = vstd::wrapping::usize_specs::wrapping_add(cfa, off);
            Ok((regs.update(REG_SP as int, c), c))
        } else if s >= NUM_REGS {
            Err(UnwindError::UnknownRegister)
        } else {
            Ok((regs, vstd::wrapping::usize_specs::wrapping_add(regs[s as int], off)))
        },
        _ => Err(UnwindError::InvalidApplication),
    }
}

/// The registers after applying the rules of registers `i..` in order:
/// a lost register becomes zero, a kept one stays, one held in another
/// register takes that register's current value, and one saved on the stack
/// is read at its offset from `cfa`; the first failure stops.
pub open spec fn apply_registers<T: Peeker>(
    deltas: Seq<Delta>,
    regs: Seq<usize>,
    cfa: usize,
    stack: T,
    range: Range<usize>,
    i: nat,
) -> (Result<(), UnwindError>, Seq<usize>)
    decreases NUM_REGS - i,
{
    if i >= NUM_REGS {
        (Ok(()), regs)
    } else {
        match deltas[i as int] {
            Delta::Undef => apply_registers(deltas, regs.update(i as int, 0), cfa, stack, range, i + 1),
            Delta::Same => apply_registers(deltas, regs, cfa, stack, range, i + 1),
            Delta::Reg(r) => if r >= NUM_REGS {
                (Err(UnwindError::UnknownRegister), regs)
            } else {
                apply_registers(deltas, regs.update(i as int, regs[r as int]), cfa, stack, range, i + 1)
            },
            Delta::CfaRelative(v) => match stack_word(
                stack,
                range,
                vstd::wrapping::usize_specs::wrapping_add(cfa, v),
            ) {
                Ok(x) => apply_registers(deltas, regs.update(i as int, x), cfa, stack, range, i + 1),
                Err(e) => (Err(e), regs),
            },
        }
    }
}

/// What applying the rules `res` does to a context: the result, the
/// registers, the program counter and the canonical frame address after
/// it. On success the program counter is the value the return-address
/// column recovered.
pub open spec fn apply_spec<T: Peeker>(res: ExecutionResult, ctx: UnwindContext<T>) -> (Result<(), UnwindError>, Seq<usize>, usize, usize) {
    match apply_cfa(res, ctx.frame.regs@, ctx.cfa) {
        Err(e) => (Err(e), ctx.frame.regs@, ctx.frame.pc, ctx.cfa),
        Ok((regs1, cfa1)) => match apply_registers(res.state.deltas@, regs1, cfa1, ctx.stack, ctx.sp_range, 0) {
            (Err(e), regs2) => (Err(e), regs2, ctx.frame.pc, cfa1),
            (Ok(()), regs2) => if res.state.return_address_column >= NUM_REGS {
                (Err(UnwindError::UnknownRegister), regs2, ctx.frame.pc, cfa1)
            } else {
                (Ok(()), regs2, regs2[res.state.return_address_column as int], cfa1)
            },
        },
    }
}

impl ExecutionResult {
    /// Recover the caller's frame in `ctx` by these rules (see
    /// [`apply_spec`]).
    pub fn apply<T: Peeker>(&self, ctx: &mut UnwindContext<T>) -> (r: Result<(), UnwindError>)
        requires
            old(ctx).wf(),
        ensures
            final(ctx).wf(),
            final(ctx).sp_range == old(ctx).sp_range,
            final(ctx).stack == old(ctx).stack,
            final(ctx).reader == old(ctx).reader,
            (r, final(ctx).frame.regs@, final(ctx).frame.pc, final(ctx).cfa) == apply_spec(*self, *old(ctx)),
    {
        let off = self.state.cfa_off_column;
        let cfa = match self.state.deltas[DWARF_CFA_REG_COLUMN] {
            Delta::Reg(s) => {
                if s == REG_SP && matches!(self.state.deltas[REG_SP], Delta::Same) {
                    let c = ctx.cfa.wrapping_add(off);
                    ctx.frame.regs.set(REG_SP, c);
                    c
                } else if s >= NUM_REGS {
                    return Err(UnwindError::UnknownRegister);
                } else {
                    ctx.frame.regs[s].wrapping_add(off)
                }
            },
            _ => return Err(UnwindError::InvalidApplication),
        };
        ctx.cfa = cfa;
        let ghost regs1 = ctx.frame.regs@;
        assert(apply_cfa(*self, old(ctx).frame.regs@, old(ctx).cfa) == Ok::<(Seq<usize>, usize), UnwindError>((regs1, cfa)));
        let mut reg: usize = 0;
        while reg < NUM_COLUMNS
            invariant
                ctx.wf(),
                ctx.sp_range == old(ctx).sp_range,
                ctx.stack == old(ctx).stack,
                ctx.reader == old(ctx).reader,
                ctx.cfa == cfa,
                ctx.frame.pc == old(ctx).frame.pc,
                apply_cfa(*self, old(ctx).frame.regs@, old(ctx).cfa) == Ok::<(Seq<usize>, usize), UnwindError>((regs1, cfa)),
                reg <= NUM_COLUMNS,
                apply_registers(self.state.deltas@, regs1, cfa, ctx.stack, ctx.sp_range, 0)
                    == apply_registers(self.state.deltas@, ctx.frame.regs@, cfa, ctx.stack, ctx.sp_range, if reg < NUM_REGS { reg as nat } else { NUM_REGS as nat }),
            decreases NUM_COLUMNS - reg,
        {
            if reg < NUM_REGS {
                match self.state.deltas[reg] {
                    Delta::Undef => ctx.frame.regs.set(reg, 0),
                    Delta::Same => {},
                    Delta::Reg(r) => {
                        if r >= NUM_REGS {
                            return Err(UnwindError::UnknownRegister);
                        }
                        let v = ctx.frame.regs[r];
                        ctx.frame.regs.set(reg, v);
                    },
                    Delta::CfaRelative(v) => {
                        let x = match ctx.read_mem(ctx.cfa.wrapping_add(v)) {
                            Ok(x) => x,
                            Err(e) => return Err(e),
                        };
                        ctx.frame.regs.set(reg, x);
                    },
                }
            }
            reg = reg + 1;
        }
        if self.state.return_address_column >= NUM_REGS {
            return Err(UnwindError::UnknownRegister);
        }
        ctx.frame.pc = ctx.frame.regs[self.state.return_address_column];
        Ok(())
    }
}

impl<T: Peeker> UnwindContext<T> {
    /// The frame description entry covering the program counter, looked up
    /// in the table `hdr` and parsed through the context's reader; none once
    /// the program counter is zero (the outermost frame was passed). The
    /// entry found must cover the program counter.
    pub fn frame_entry(&mut self, hdr: &EhFrameHeader<T>) -> (r: Result<Option<FrameDescriptionEntry>, UnwindError>)
        requires
            hdr.table_ok(),
            hdr.count() >= 2,
            old(self).frame.pc != 0 ==> forall|i: int| #[trigger] hdr.search_stop(old(self).frame.pc, i)
                ==> !(dec_fde(old(self).reader, hdr.entry(i)->0.insn.0) is Undefined),
        ensures
            *final(self) == *old(self),
            old(self).frame.pc == 0 ==> r == Ok::<Option<FrameDescriptionEntry>, UnwindError>(None),
            old(self).frame.pc != 0 ==> exists|i: int| #[trigger] hdr.search_stop(old(self).frame.pc, i)
                && match dec_fde(old(self).reader, hdr.entry(i)->0.insn.0) {
                    Decoded::Entry(f) => if f.1 <= old(self).frame.pc < f.2 {
                        r matches Ok(Some(x)) && fde_fields(&x) == f
                    } else {
                        r matches Err(UnwindError::InvalidPc(p)) && p == old(self).frame.pc
                    },
                    Decoded::Rejected => r matches Err(UnwindError::ParsingFailure),
                    Decoded::Undefined => false,
                },
    {
        let pc = self.frame.pc;
        if pc == 0 {
            return Ok(None);
        }
        let entry = hdr.find(pc);
        let ghost i = choose|i: int| hdr.search_stop(pc, i) && entry == #[trigger] hdr.entry(i);
        assert(hdr.entry(i) is Some);
        let insn = entry.unwrap().insn;
        let saved = self.reader.snapshot();
        let ghost r0 = self.reader;
        let parsed = insn.parse_in(&mut self.reader);
        self.reader.restore(saved);
        proof {
            DwarfReader::lemma_same_state(self.reader, r0);
        }
        let fde = match parsed {
            Some(f) => f,
            None => return Err(UnwindError::ParsingFailure),
        };
        if fde.pc.start <= pc && pc < fde.pc.end {
            Ok(Some(fde))
        } else {
            Err(UnwindError::InvalidPc(pc))
        }
    }

    /// Move to the caller's frame by the rules `fde` gives at the program
    /// counter. Rules that change neither the program counter nor the
    /// canonical frame address cannot unwind further: an error.
    pub fn advance(&mut self, fde: &FrameDescriptionEntry) -> (r: Result<(), UnwindError>)
        requires
            old(self).wf(),
            fde.cie.ret_addr_column < NUM_REGS ==> !(fde_rules(fde, old(self).frame.pc) is Abort),
        ensures
            final(self).wf(),
            final(self).sp_range == old(self).sp_range,
            final(self).stack == old(self).stack,
            final(self).reader == old(self).reader,
            fde.cie.ret_addr_column >= NUM_REGS ==> r is Err && *final(self) == *old(self),
            fde.cie.ret_addr_column < NUM_REGS ==> match fde_rules(fde, old(self).frame.pc) {
                RunResult::Done(res) => {
                    let (ar, regs, pc, cfa) = apply_spec(res, *old(self));
                    &&& final(self).frame.regs@ == regs
                    &&& final(self).frame.pc == pc
                    &&& final(self).cfa == cfa
                    &&& r == match ar {
                        Err(e) => Err(e),
                        Ok(()) => if pc == old(self).frame.pc && cfa == old(self).cfa {
                            Err(UnwindError::UnwindablePc(pc))
                        } else {
                            Ok(())
                        },
                    }
                },
                RunResult::Failed(e) => r == Err::<(), UnwindError>(e) && *final(self) == *old(self),
                RunResult::Abort => false,
            },
    {
        let (previous_pc, previous_cfa) = (self.frame.pc, self.cfa);
        let res = match fde.run(previous_pc) {
            Ok(res) => res,
            Err(e) => return Err(e),
        };
        match res.apply(self) {
            Ok(()) => {},
            Err(e) => return Err(e),
        }
        if self.frame.pc == previous_pc && self.cfa == previous_cfa {
            Err(UnwindError::UnwindablePc(self.frame.pc))
        } else {
            Ok(())
        }
    }
}

} // verus!
