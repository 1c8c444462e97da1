//! The call-frame instruction machine: it runs the CFA program of a CIE
//! and an FDE up to an address and gives the rule for each register.
use vstd::prelude::*;
use super::reader::{
    get_sleb128, get_uleb128, lemma_leb_complete_unique, leb_bounded, leb_complete, sleb_value,
    uleb_value,
};
use super::UnwindError;
use super::ehframe::CommonInformationEntry;

verus! {

broadcast use vstd::array::group_array_axioms;

/// Number of registers the rules cover.
pub const NUM_REGS: usize = 17;
/// Column of the CFA rule, after the registers.
pub const DWARF_CFA_REG_COLUMN: usize = 17;
/// Number of rule columns.
pub const NUM_COLUMNS: usize = 18;

/// The rule that recovers a register of the caller.
#[derive(Copy, Clone, Debug, PartialEq, Eq, Structural)]
pub enum Delta {
    /// The value is lost.
    Undef,
    /// The register keeps its value.
    Same,
    /// Saved at this offset from the CFA.
    CfaRelative(usize),
    /// Held in this register.
    Reg(usize),
}

/// The rules of all columns: the CFA offset, the return address column
/// and one rule per column (the last being the CFA's register).
#[derive(Copy, Clone, Debug)]
pub struct RegisterStates {
    pub cfa_off_column: usize,
    pub return_address_column: usize,
    pub deltas: [Delta; 18],
}

/// The rules at an address.
#[derive(Copy, Clone, Debug)]
pub struct ExecutionResult {
    pub state: RegisterStates,
    pub ip: usize,
}

impl ExecutionResult {
    /// Rules that keep every register, at `ip`.
    pub fn new_boxed(return_address_column: usize, ip: usize) -> (r: ExecutionResult)
        ensures
            r.ip == ip,
            r.state.cfa_off_column == 0,
            r.state.return_address_column == return_address_column,
            forall|i: int| 0 <= i < NUM_COLUMNS ==> r.state.deltas@[i] == Delta::Same,
    {
        ExecutionResult {
            state: RegisterStates {
                cfa_off_column: 0,
                return_address_column,
                deltas: [Delta::Same; 18],
            },
            ip,
        }
    }
}

/// A program of call-frame instructions.
#[derive(Debug)]
pub struct Operations {
    pub ops: Vec<u8>,
}

/// The operand encodings of DWARF expressions.
#[derive(Copy, Clone, Debug, PartialEq, Eq, Structural)]
pub enum OperandType {
    Addr,
    Deref,
    Const1u,
    Const1s,
    Const2u,
    Const2s,
    Const4u,
    Const4s,
    Const8u,
    Const8s,
    Constu,
    Consts,
}

/// Call-frame instructions.
#[derive(Copy, Clone, Debug, PartialEq, Eq, Structural)]
pub enum Opcode {
    AdvanceLoc,
    Offset,
    Restore,
    Nop,
    SetLoc,
    AdvanceLoc1,
    AdvanceLoc2,
    AdvanceLoc4,
    OffsetExtended,
    RestoreExtended,
    Undefined,
    SameValue,
    Register,
    RememberState,
    RestoreState,
    DefCfa,
    DefCfaRegister,
    DefCfaOffset,
    DefCfaExpression,
    Expression,
    OffsetExtendedSf,
    DefCfaSf,
    DefCfaOffsetSf,
    ValExpression,
    LoUser,
    MipsAdvanceLoc8,
    GnuWindowSave,
    GnuArgsSize,
    GnuNegativeOffsetExtended,
    HiUser,
}

/// The instruction that byte `b` names (the top two bits alone for the
/// three instructions that carry an operand).
pub open spec fn opcode_of(b: u8) -> Option<Opcode> {
    if b & 0xc0 == 0x40 {
        Some(Opcode::AdvanceLoc)
    } else if b & 0xc0 == 0x80 {
        Some(Opcode::Offset)
    } else if b & 0xc0 == 0xc0 {
        Some(Opcode::Restore)
    } else {
        match b {
            0x00 => Some(Opcode::Nop),
            0x01 => Some(Opcode::SetLoc),
            0x02 => Some(Opcode::AdvanceLoc1),
            0x03 => Some(Opcode::AdvanceLoc2),
            0x04 => Some(Opcode::AdvanceLoc4),
            0x05 => Some(Opcode::OffsetExtended),
            0x06 => Some(Opcode::RestoreExtended),
            0x07 => Some(Opcode::Undefined),
            0x08 => Some(Opcode::SameValue),
            0x09 => Some(Opcode::Register),
            0x0a => Some(Opcode::RememberState),
            0x0b => Some(Opcode::RestoreState),
            0x0c => Some(Opcode::DefCfa),
            0x0d => Some(Opcode::DefCfaRegister),
            0x0e => Some(Opcode::DefCfaOffset),
            0x0f => Some(Opcode::DefCfaExpression),
            0x10 => Some(Opcode::Expression),
            0x11 => Some(Opcode::OffsetExtendedSf),
            0x12 => Some(Opcode::DefCfaSf),
            0x13 => Some(Opcode::DefCfaOffsetSf),
            0x16 => Some(Opcode::ValExpression),
            0x1c => Some(Opcode::LoUser),
            0x1d => Some(Opcode::MipsAdvanceLoc8),
            0x2d => Some(Opcode::GnuWindowSave),
            0x2e => Some(Opcode::GnuArgsSize),
            0x2f => Some(Opcode::GnuNegativeOffsetExtended),
            0x3c => Some(Opcode::HiUser),
            _ => None,
        }
    }
}

impl Opcode {
    /// The instruction that byte `b` names.
    pub fn try_from(b: u8) -> (r: Option<Opcode>)
        ensures
            r == opcode_of(b),
    {
        if b & 0xc0 == 0x40 {
            Some(Opcode::AdvanceLoc)
        } else if b & 0xc0 == 0x80 {
            Some(Opcode::Offset)
        } else if b & 0xc0 == 0xc0 {
            Some(Opcode::Restore)
        } else {
            match b {
                0x00 => Some(Opcode::Nop),
                0x01 => Some(Opcode::SetLoc),
                0x02 => Some(Opcode::AdvanceLoc1),
                0x03 => Some(Opcode::AdvanceLoc2),
                0x04 => Some(Opcode::AdvanceLoc4),
                0x05 => Some(Opcode::OffsetExtended),
                0x06 => Some(Opcode::RestoreExtended),
                0x07 => Some(Opcode::Undefined),
                0x08 => Some(Opcode::SameValue),
                0x09 => Some(Opcode::Register),
                0x0a => Some(Opcode::RememberState),
                0x0b => Some(Opcode::RestoreState),
                0x0c => Some(Opcode::DefCfa),
                0x0d => Some(Opcode::DefCfaRegister),
                0x0e => Some(Opcode::DefCfaOffset),
                0x0f => Some(Opcode::DefCfaExpression),
                0x10 => Some(Opcode::Expression),
                0x11 => Some(Opcode::OffsetExtendedSf),
                0x12 => Some(Opcode::DefCfaSf),
                0x13 => Some(Opcode::DefCfaOffsetSf),
                0x16 => Some(Opcode::ValExpression),
                0x1c => Some(Opcode::LoUser),
                0x1d => Some(Opcode::MipsAdvanceLoc8),
                0x2d => Some(Opcode::GnuWindowSave),
                0x2e => Some(Opcode::GnuArgsSize),
                0x2f => Some(Opcode::GnuNegativeOffsetExtended),
                0x3c => Some(Opcode::HiUser),
                _ => None,
            }
        }
    }
}

/// The rest of `ops` from `pos`.
pub open spec fn rest(ops: Seq<u8>, pos: int) -> Seq<u8> {
    ops.subrange(pos, ops.len() as int)
}

/// The length of the complete LEB128 number at the front of `s`, if any.
pub open spec fn leb_len(s: Seq<u8>) -> Option<int> {
    if exists|n: int| 1 <= n <= s.len() && leb_complete(#[trigger] s.subrange(0, n)) {
        Some(choose|n: int| 1 <= n <= s.len() && leb_complete(#[trigger] s.subrange(0, n)))
    } else {
        None
    }
}

/// The unsigned LEB128 number at `pos`: its value and the position after it.
pub open spec fn uleb_at(ops: Seq<u8>, pos: int) -> Option<(usize, int)> {
    match leb_len(rest(ops, pos)) {
        Some(n) => Some((uleb_value(rest(ops, pos).subrange(0, n)), pos + n)),
        None => None,
    }
}

/// The signed LEB128 number at `pos`: its value and the position after it.
pub open spec fn sleb_at(ops: Seq<u8>, pos: int) -> Option<(isize, int)> {
    match leb_len(rest(ops, pos)) {
        Some(n) => Some((sleb_value(rest(ops, pos).subrange(0, n)), pos + n)),
        None => None,
    }
}

/// Decode the unsigned LEB128 number at `pos`.
fn pick_uleb128(ops: &[u8], pos: usize) -> (r: Option<(usize, usize)>)
    requires
        pos <= ops@.len(),
        leb_bounded(rest(ops@, pos as int)),
    ensures
        match r {
            Some((v, p)) => uleb_at(ops@, pos as int) == Some((v, p as int)) && p <= ops@.len(),
            None => uleb_at(ops@, pos as int) is None,
        },
{
    let ghost s = rest(ops@, pos as int);
    let tail = vstd::slice::slice_subrange(ops, pos, ops.len());
    assert(tail@ =~= s);
    match get_uleb128(tail) {
        Some((v, n)) => {
            proof {
                lemma_leb_len(s, n as int);
            }
            Some((v, pos + n))
        },
        None => {
            proof {
                lemma_no_leb(s);
            }
            None
        },
    }
}

/// Decode the signed LEB128 number at `pos`.
fn pick_sleb128(ops: &[u8], pos: usize) -> (r: Option<(isize, usize)>)
    requires
        pos <= ops@.len(),
        leb_bounded(rest(ops@, pos as int)),
    ensures
        match r {
            Some((v, p)) => sleb_at(ops@, pos as int) == Some((v, p as int)) && p <= ops@.len(),
            None => sleb_at(ops@, pos as int) is None,
        },
{
    let ghost s = rest(ops@, pos as int);
    let tail = vstd::slice::slice_subrange(ops, pos, ops.len());
    assert(tail@ =~= s);
    match get_sleb128(tail) {
        Some((v, n)) => {
            proof {
                lemma_leb_len(s, n as int);
            }
            Some((v, pos + n))
        },
        None => {
            proof {
                lemma_no_leb(s);
            }
            None
        },
    }
}

/// A complete number of length `n` at the front is the one `leb_len` finds.
proof fn lemma_leb_len(s: Seq<u8>, n: int)
    requires
        1 <= n <= s.len(),
        leb_complete(s.subrange(0, n)),
    ensures
        leb_len(s) == Some(n),
{
    assert(leb_complete(s.subrange(0, n)));
    let m = choose|m: int| 1 <= m <= s.len() && leb_complete(#[trigger] s.subrange(0, m));
    if m < n {
        assert(s.subrange(0, n).subrange(0, m) =~= s.subrange(0, m));
        lemma_leb_complete_unique(s.subrange(0, n), m);
    } else if m > n {
        assert(s.subrange(0, m).subrange(0, n) =~= s.subrange(0, n));
        lemma_leb_complete_unique(s.subrange(0, m), n);
    }
}

/// When every byte continues, no number is complete.
proof fn lemma_no_leb(s: Seq<u8>)
    requires
        forall|k: int| 0 <= k < s.len() ==> #[trigger] s[k] & 0x80 == 0x80,
    ensures
        leb_len(s) is None,
{
    assert forall|n: int| 1 <= n <= s.len() implies !leb_complete(#[trigger] s.subrange(0, n)) by {
        assert(s.subrange(0, n)[n - 1] == s[n - 1]);
    }
}

/// Outcome of reading an operand.
pub enum Read<T> {
    /// The operand and the position after it.
    Val(T, int),
    /// Reading failed with this error.
    Failed(UnwindError),
    /// The reader would panic (an unsigned number of more than ten groups).
    Abort,
}

/// Read the unsigned LEB128 operand at `p`.
pub open spec fn read_uleb(ops: Seq<u8>, p: int) -> Read<usize> {
    if !leb_bounded(rest(ops, p)) {
        Read::Abort
    } else {
        match uleb_at(ops, p) {
            Some((v, q)) => Read::Val(v, q),
            None => Read::Failed(UnwindError::ParsingFailure),
        }
    }
}

/// Read the signed LEB128 operand at `p`.
pub open spec fn read_sleb(ops: Seq<u8>, p: int) -> Read<isize> {
    if !leb_bounded(rest(ops, p)) {
        Read::Abort
    } else {
        match sleb_at(ops, p) {
            Some((v, q)) => Read::Val(v, q),
            None => Read::Failed(UnwindError::ParsingFailure),
        }
    }
}

/// Read a register-number operand at `p`.
pub open spec fn read_reg(ops: Seq<u8>, p: int) -> Read<usize> {
    match read_uleb(ops, p) {
        Read::Val(v, q) => if v < NUM_REGS {
            Read::Val(v, q)
        } else {
            Read::Failed(UnwindError::BadRegister)
        },
        other => other,
    }
}

/// The little-endian value of `n` bytes at `p`, if they are there.
pub open spec fn read_fixed(ops: Seq<u8>, p: int, n: int) -> Option<int> {
    if p + n > ops.len() {
        None
    } else if n == 1 {
        Some(ops[p] as int)
    } else if n == 2 {
        Some(ops[p] + ops[p + 1] * 0x100)
    } else {
        Some(ops[p] + ops[p + 1] * 0x100 + ops[p + 2] * 0x1_0000 + ops[p + 3] * 0x100_0000)
    }
}

/// The state of a running program, as a value.
pub struct CursorView {
    pub pos: int,
    pub ip: usize,
    pub initial: ExecutionResult,
    pub result: ExecutionResult,
    pub args_size: Option<usize>,
    pub stack: Seq<RegisterStates>,
}

/// Outcome of one instruction.
pub enum StepResult {
    /// The program continues from this state.
    Continue(CursorView),
    /// No instruction is left.
    Stop,
    /// The instruction failed with this error.
    Failed(UnwindError),
    /// The instruction would panic: an arithmetic overflow, an unsupported
    /// instruction, an unreadable source register, or a number too long.
    Abort,
}

/// The state with rule `d` for column `i`, at position `pos`.
pub open spec fn with_rule(c: CursorView, i: usize, d: Delta, pos: int) -> CursorView {
    CursorView {
        pos,
        result: ExecutionResult {
            state: RegisterStates {
                deltas: vstd::array::spec_array_update(c.result.state.deltas, i as int, d),
                ..c.result.state
            },
            ..c.result
        },
        ..c
    }
}

/// The state with CFA offset `off`, at position `pos`.
pub open spec fn with_cfa_off(c: CursorView, off: usize, pos: int) -> CursorView {
    CursorView {
        pos,
        result: ExecutionResult {
            state: RegisterStates { cfa_off_column: off, ..c.result.state },
            ..c.result
        },
        ..c
    }
}

/// Whether `x * y` fits in an `isize`.
pub open spec fn mul_fits(x: isize, y: isize) -> bool {
    isize::MIN <= x * y <= isize::MAX
}

/// The product of `x` and `y`, wrapped to an `isize`.
pub open spec fn wrapping_mul_isize(x: isize, y: isize) -> isize {
    vstd::wrapping::isize_specs::wrapping_mul(x, y)
}

/// `ip` advanced by `v` code units of `caf` bytes, wrapping.
pub open spec fn advance_wrapping(ip: usize, v: int, caf: usize) -> usize {
    vstd::wrapping::usize_specs::wrapping_add(ip, vstd::wrapping::usize_specs::wrapping_mul(v as usize, caf))
}

/// Run the instruction at `c.pos` of `ops`, with code and data alignment
/// factors `caf` and `daf`.
pub open spec fn step_spec(ops: Seq<u8>, caf: usize, daf: isize, c: CursorView) -> StepResult {
    if c.pos < 0 || c.pos >= ops.len() {
        StepResult::Stop
    } else {
        let b = ops[c.pos];
        let p = c.pos + 1;
        let operand = (b & 0x3f) as usize;
        match opcode_of(b) {
            None => StepResult::Failed(UnwindError::BadOpcode(b)),
            Some(Opcode::AdvanceLoc) => if operand * caf + c.ip > usize::MAX {
                StepResult::Abort
            } else {
                StepResult::Continue(CursorView { pos: p, ip: (c.ip + operand * caf) as usize, ..c })
            },
            Some(Opcode::Offset) => if operand >= NUM_REGS {
                StepResult::Failed(UnwindError::BadRegister)
            } else {
                match read_uleb(ops, p) {
                    Read::Val(v, q) => if mul_fits(v as isize, daf) {
                        StepResult::Continue(with_rule(c, operand, Delta::CfaRelative(((v as isize) * daf) as usize), q))
                    } else {
                        StepResult::Abort
                    },
                    Read::Failed(e) => StepResult::Failed(e),
                    Read::Abort => StepResult::Abort,
                }
            },
            Some(Opcode::Restore) => if operand >= NUM_REGS {
                StepResult::Failed(UnwindError::BadRegister)
            } else {
                StepResult::Continue(with_rule(c, operand, c.initial.state.deltas@[operand as int], p))
            },
            Some(Opcode::Nop) => StepResult::Continue(CursorView { pos: p, ..c }),
            Some(Opcode::AdvanceLoc1) => match read_fixed(ops, p, 1) {
                Some(v) => StepResult::Continue(CursorView { pos: p + 1, ip: advance_wrapping(c.ip, v, caf), ..c }),
                None => StepResult::Failed(UnwindError::ParsingFailure),
            },
            Some(Opcode::AdvanceLoc2) => match read_fixed(ops, p, 2) {
                Some(v) => StepResult::Continue(CursorView { pos: p + 2, ip: advance_wrapping(c.ip, v, caf), ..c }),
                None => StepResult::Failed(UnwindError::ParsingFailure),
            },
            Some(Opcode::AdvanceLoc4) => match read_fixed(ops, p, 4) {
                Some(v) => StepResult::Continue(CursorView { pos: p + 4, ip: advance_wrapping(c.ip, v, caf), ..c }),
                None => StepResult::Failed(UnwindError::ParsingFailure),
            },
            Some(Opcode::OffsetExtended) => match read_reg(ops, p) {
                Read::Val(r, q) => match read_uleb(ops, q) {
                    Read::Val(v, q2) => StepResult::Continue(with_rule(c, r, Delta::CfaRelative(wrapping_mul_isize(v as isize, daf) as usize), q2)),
                    Read::Failed(e) => StepResult::Failed(e),
                    Read::Abort => StepResult::Abort,
                },
                Read::Failed(e) => StepResult::Failed(e),
                Read::Abort => StepResult::Abort,
            },
            Some(Opcode::RestoreExtended) => match read_reg(ops, p) {
                Read::Val(r, q) => StepResult::Continue(with_rule(c, r, c.initial.state.deltas@[r as int], q)),
                Read::Failed(e) => StepResult::Failed(e),
                Read::Abort => StepResult::Abort,
            },
            Some(Opcode::Undefined) => match read_reg(ops, p) {
                Read::Val(r, q) => StepResult::Continue(with_rule(c, r, Delta::Undef, q)),
                Read::Failed(e) => StepResult::Failed(e),
                Read::Abort => StepResult::Abort,
            },
            Some(Opcode::SameValue) => match read_reg(ops, p) {
                Read::Val(r, q) => StepResult::Continue(with_rule(c, r, Delta::Same, q)),
                Read::Failed(e) => StepResult::Failed(e),
                Read::Abort => StepResult::Abort,
            },
            Some(Opcode::Register) => match read_reg(ops, p) {
                Read::Val(r, q) => match read_reg(ops, q) {
                    Read::Val(f, q2) => StepResult::Continue(with_rule(c, r, Delta::Reg(f), q2)),
                    _ => StepResult::Abort,
                },
                Read::Failed(e) => StepResult::Failed(e),
                Read::Abort => StepResult::Abort,
            },
            Some(Opcode::RememberState) => StepResult::Continue(CursorView { pos: p, stack: c.stack.push(c.result.state), ..c }),
            Some(Opcode::RestoreState) => if c.stack.len() == 0 {
                StepResult::Failed(UnwindError::InvalidOp(0x0b))
            } else {
                StepResult::Continue(CursorView {
                    pos: p,
                    stack: c.stack.drop_last(),
                    result: ExecutionResult { state: c.stack.last(), ..c.result },
                    ..c
                })
            },
            Some(Opcode::DefCfa) => match read_reg(ops, p) {
                Read::Val(r, q) => match read_uleb(ops, q) {
                    Read::Val(v, q2) => StepResult::Continue(with_cfa_off(with_rule(c, DWARF_CFA_REG_COLUMN, Delta::Reg(r), q), v, q2)),
                    Read::Failed(e) => StepResult::Failed(e),
                    Read::Abort => StepResult::Abort,
                },
                Read::Failed(e) => StepResult::Failed(e),
                Read::Abort => StepResult::Abort,
            },
            Some(Opcode::DefCfaRegister) => match read_reg(ops, p) {
                Read::Val(r, q) => StepResult::Continue(with_rule(c, DWARF_CFA_REG_COLUMN, Delta::Reg(r), q)),
                Read::Failed(e) => StepResult::Failed(e),
                Read::Abort => StepResult::Abort,
            },
            Some(Opcode::DefCfaOffset) => match read_uleb(ops, p) {
                Read::Val(v, q) => StepResult::Continue(with_cfa_off(c, v, q)),
                Read::Failed(e) => StepResult::Failed(e),
                Read::Abort => StepResult::Abort,
            },
            Some(Opcode::OffsetExtendedSf) => match read_reg(ops, p) {
                Read::Val(r, q) => match read_sleb(ops, q) {
                    Read::Val(v, q2) => StepResult::Continue(with_rule(c, r, Delta::CfaRelative(wrapping_mul_isize(v, daf) as usize), q2)),
                    Read::Failed(e) => StepResult::Failed(e),
                    Read::Abort => StepResult::Abort,
                },
                Read::Failed(e) => StepResult::Failed(e),
                Read::Abort => StepResult::Abort,
            },
            Some(Opcode::DefCfaSf) => match read_reg(ops, p) {
                Read::Val(r, q) => match read_sleb(ops, q) {
                    Read::Val(v, q2) => StepResult::Continue(with_cfa_off(with_rule(c, DWARF_CFA_REG_COLUMN, Delta::Reg(r), q), wrapping_mul_isize(v, daf) as usize, q2)),
                    Read::Failed(e) => StepResult::Failed(e),
                    Read::Abort => StepResult::Abort,
                },
                Read::Failed(e) => StepResult::Failed(e),
                Read::Abort => StepResult::Abort,
            },
            Some(Opcode::DefCfaOffsetSf) => match read_sleb(ops, p) {
                Read::Val(v, q) => StepResult::Continue(with_cfa_off(c, wrapping_mul_isize(v, daf) as usize, q)),
                Read::Failed(e) => StepResult::Failed(e),
                Read::Abort => StepResult::Abort,
            },
            Some(Opcode::LoUser) => StepResult::Failed(UnwindError::BadOpcode(0x1c)),
            Some(Opcode::MipsAdvanceLoc8) => StepResult::Failed(UnwindError::BadOpcode(0x1d)),
            Some(Opcode::GnuWindowSave) => StepResult::Failed(UnwindError::BadOpcode(0x2d)),
            Some(Opcode::GnuArgsSize) => match read_uleb(ops, p) {
                Read::Val(v, q) => StepResult::Continue(CursorView { pos: q, args_size: Some(v), ..c }),
                Read::Failed(e) => StepResult::Failed(e),
                Read::Abort => StepResult::Abort,
            },
            Some(Opcode::GnuNegativeOffsetExtended) => match read_reg(ops, p) {
                Read::Val(r, q) => match read_uleb(ops, q) {
                    Read::Val(v, q2) => if mul_fits(v as isize, daf) && (v as isize) * daf != isize::MIN {
                        StepResult::Continue(with_rule(c, r, Delta::CfaRelative((-((v as isize) * daf)) as usize), q2))
                    } else {
                        StepResult::Abort
                    },
                    Read::Failed(e) => StepResult::Failed(e),
                    Read::Abort => StepResult::Abort,
                },
                Read::Failed(e) => StepResult::Failed(e),
                Read::Abort => StepResult::Abort,
            },
            Some(Opcode::HiUser) => StepResult::Failed(UnwindError::BadOpcode(0x1c)),
            Some(_) => StepResult::Abort,
        }
    }
}

/// Outcome of running a program.
pub enum RunResult {
    /// The rules reached.
    Done(ExecutionResult),
    /// The program failed with this error.
    Failed(UnwindError),
    /// The program would panic.
    Abort,
}

/// The state in which a program starts from rules `result`.
pub open spec fn init_cursor(result: ExecutionResult) -> CursorView {
    CursorView {
        pos: 0,
        ip: result.ip,
        initial: result,
        result,
        args_size: None,
        stack: Seq::empty(),
    }
}

/// Run instructions from state `c` while the address reached is at most
/// `end_ip`, until none is left.
pub open spec fn run_spec(ops: Seq<u8>, caf: usize, daf: isize, end_ip: usize, c: CursorView) -> RunResult
    decreases ops.len() - c.pos,
{
    if c.ip > end_ip {
        RunResult::Done(c.result)
    } else {
        match step_spec(ops, caf, daf, c) {
            StepResult::Stop => RunResult::Done(c.result),
            StepResult::Failed(e) => RunResult::Failed(e),
            StepResult::Abort => RunResult::Abort,
            StepResult::Continue(c2) => if 0 <= c.pos < c2.pos <= ops.len() {
                run_spec(ops, caf, daf, end_ip, c2)
            } else {
                RunResult::Abort
            },
        }
    }
}

/// An operand read moves forward and stays within the program.
proof fn lemma_leb_advances(ops: Seq<u8>, p: int)
    requires
        0 <= p <= ops.len(),
    ensures
        uleb_at(ops, p) matches Some((_, q)) ==> p < q <= ops.len(),
        sleb_at(ops, p) matches Some((_, q)) ==> p < q <= ops.len(),
{
    let s = rest(ops, p);
    if leb_len(s) is Some {
        let n = choose|n: int| 1 <= n <= s.len() && leb_complete(#[trigger] s.subrange(0, n));
        assert(1 <= n <= s.len());
    }
}

/// Every instruction that runs moves forward and stays within the program.
pub proof fn lemma_step_advances(ops: Seq<u8>, caf: usize, daf: isize, c: CursorView)
    requires
        0 <= c.pos <= ops.len(),
    ensures
        step_spec(ops, caf, daf, c) matches StepResult::Continue(c2) ==> c.pos < c2.pos <= ops.len(),
{
    let p = c.pos + 1;
    if c.pos < ops.len() {
        lemma_leb_advances(ops, p);
        if let Read::Val(_, q) = read_reg(ops, p) {
            lemma_leb_advances(ops, q);
        }
    }
}

/// Remembering the rules and restoring them right away leaves the rules
/// and the remembered stack as they were.
pub proof fn lemma_remember_restore(ops: Seq<u8>, caf: usize, daf: isize, c: CursorView)
    requires
        0 <= c.pos,
        c.pos + 1 < ops.len(),
        ops[c.pos] == 0x0a,
        ops[c.pos + 1] == 0x0b,
    ensures
        step_spec(ops, caf, daf, c) matches StepResult::Continue(c1) && step_spec(ops, caf, daf, c1)
            matches StepResult::Continue(c2) && c2.result == c.result && c2.stack == c.stack && c2.pos
            == c.pos + 2,
{
    let c1 = CursorView { pos: c.pos + 1, stack: c.stack.push(c.result.state), ..c };
    let b0 = ops[c.pos];
    let b1 = ops[c.pos + 1];
    assert(b0 & 0xc0 == 0 && b1 & 0xc0 == 0) by (bit_vector)
        requires
            b0 == 0x0a,
            b1 == 0x0b,
    ;
    assert(opcode_of(b0) == Some(Opcode::RememberState));
    assert(opcode_of(b1) == Some(Opcode::RestoreState));
    assert(step_spec(ops, caf, daf, c) == StepResult::Continue(c1));
    assert(c1.stack.drop_last() =~= c.stack);
}

/// A running program: position, address reached, the rules at its start,
/// the rules so far, the argument size, and the remembered rules.
pub struct ExecutionCursor {
    pub pos: usize,
    pub ip: usize,
    pub initial: ExecutionResult,
    pub result: ExecutionResult,
    pub args_size: Option<usize>,
    pub stack: Vec<RegisterStates>,
}

impl View for ExecutionCursor {
    type V = CursorView;

    open spec fn view(&self) -> CursorView {
        CursorView {
            pos: self.pos as int,
            ip: self.ip,
            initial: self.initial,
            result: self.result,
            args_size: self.args_size,
            stack: self.stack@,
        }
    }
}

/// Read the unsigned number at `p`.
fn uleb(ops: &[u8], p: usize) -> (r: Result<(usize, usize), UnwindError>)
    requires
        p <= ops@.len(),
        !(read_uleb(ops@, p as int) is Abort),
    ensures
        match read_uleb(ops@, p as int) {
            Read::Val(v, q) => r matches Ok((rv, rq)) && rv == v && rq == q && rq <= ops@.len(),
            Read::Failed(e) => r == Err::<(usize, usize), UnwindError>(e),
            Read::Abort => false,
        },
{
    match pick_uleb128(ops, p) {
        Some((v, q)) => Ok((v, q)),
        None => Err(UnwindError::ParsingFailure),
    }
}

/// Read the signed number at `p`.
fn sleb(ops: &[u8], p: usize) -> (r: Result<(isize, usize), UnwindError>)
    requires
        p <= ops@.len(),
        !(read_sleb(ops@, p as int) is Abort),
    ensures
        match read_sleb(ops@, p as int) {
            Read::Val(v, q) => r matches Ok((rv, rq)) && rv == v && rq == q && rq <= ops@.len(),
            Read::Failed(e) => r == Err::<(isize, usize), UnwindError>(e),
            Read::Abort => false,
        },
{
    match pick_sleb128(ops, p) {
        Some((v, q)) => Ok((v, q)),
        None => Err(UnwindError::ParsingFailure),
    }
}

/// Read the register number at `p`.
fn reg(ops: &[u8], p: usize) -> (r: Result<(usize, usize), UnwindError>)
    requires
        p <= ops@.len(),
        !(read_reg(ops@, p as int) is Abort),
    ensures
        match read_reg(ops@, p as int) {
            Read::Val(v, q) => r matches Ok((rv, rq)) && rv == v && rq == q && rq <= ops@.len() && rv < NUM_REGS,
            Read::Failed(e) => r == Err::<(usize, usize), UnwindError>(e),
            Read::Abort => false,
        },
{
    let (v, q) = uleb(ops, p)?;
    if v < NUM_REGS {
        Ok((v, q))
    } else {
        Err(UnwindError::BadRegister)
    }
}

impl Operations {
    /// A program of the instructions `ops`.
    pub fn new(ops: Vec<u8>) -> (r: Operations)
        ensures
            r.ops@ == ops@,
    {
        Operations { ops }
    }

    /// Run the program from the rules `result` while the address reached
    /// is at most `end_ip`, with the alignment factors of `cie`; give the
    /// rules reached.
    #[verifier::spinoff_prover]
    #[verifier::rlimit(40)]
    pub fn run_from_result(
        &self,
        end_ip: usize,
        result: ExecutionResult,
        cie: &CommonInformationEntry,
    ) -> (r: Result<ExecutionResult, UnwindError>)
        requires
            !(run_spec(self.ops@, cie.code_align_factor, cie.data_align_factor, end_ip, init_cursor(result)) is Abort),
        ensures
            match run_spec(self.ops@, cie.code_align_factor, cie.data_align_factor, end_ip, init_cursor(result)) {
                RunResult::Done(res) => r matches Ok(x) && x == res,
                RunResult::Failed(e) => r == Err::<ExecutionResult, UnwindError>(e),
                RunResult::Abort => false,
            },
    {
        let mut cursor = ExecutionCursor {
            pos: 0,
            ip: result.ip,
            initial: result,
            result,
            args_size: None,
            stack: Vec::new(),
        };
        assert(cursor@ =~= init_cursor(result));
        let ops = self.ops.as_slice();
        let caf = cie.code_align_factor;
        let daf = cie.data_align_factor;
        loop
            invariant
                ops@ == self.ops@,
                caf == cie.code_align_factor,
                daf == cie.data_align_factor,
                cursor.pos <= ops@.len(),
                run_spec(ops@, caf, daf, end_ip, cursor@) == run_spec(
                    self.ops@,
                    caf,
                    daf,
                    end_ip,
                    init_cursor(result),
                ),
                !(run_spec(ops@, caf, daf, end_ip, cursor@) is Abort),
            decreases ops@.len() - cursor.pos,
        {
            if cursor.ip > end_ip {
                return Ok(cursor.result);
            }
            proof {
                lemma_step_advances(ops@, caf, daf, cursor@);
            }
            let ghost before = cursor@;
            match cursor.step(ops, caf, daf) {
                Ok(true) => {
                    assert(before.pos < cursor.pos);
                },
                Ok(false) => {
                    return Ok(cursor.result);
                },
                Err(e) => {
                    return Err(e);
                },
            }
        }
    }
}

impl ExecutionCursor {
    /// Give column `i` the rule `d` and move to `pos`.
    fn set_rule(&mut self, i: usize, d: Delta, pos: usize)
        requires
            i < NUM_COLUMNS,
        ensures
            final(self)@ == with_rule(old(self)@, i, d, pos as int),
    {
        self.result.state.deltas[i] = d;
        self.pos = pos;
        assert(self.result.state.deltas =~= vstd::array::spec_array_update(
            old(self).result.state.deltas,
            i as int,
            d,
        ));
    }

    /// Set the CFA offset to `off` and move to `pos`.
    fn set_cfa_off(&mut self, off: usize, pos: usize)
        ensures
            final(self)@ == with_cfa_off(old(self)@, off, pos as int),
    {
        self.result.state.cfa_off_column = off;
        self.pos = pos;
    }

    /// Run the next instruction of `ops`: `Ok(true)` when it ran, `Ok(false)`
    /// when none is left.
    #[verifier::spinoff_prover]
    #[verifier::rlimit(40)]
    pub fn step(&mut self, ops: &[u8], caf: usize, daf: isize) -> (r: Result<bool, UnwindError>)
        requires
            old(self).pos <= ops@.len(),
            !(step_spec(ops@, caf, daf, old(self)@) is Abort),
        ensures
            final(self).pos <= ops@.len(),
            match step_spec(ops@, caf, daf, old(self)@) {
                StepResult::Continue(c) => r == Ok::<bool, UnwindError>(true) && final(self)@ == c,
                StepResult::Stop => r == Ok::<bool, UnwindError>(false) && final(self)@ == old(self)@,
                StepResult::Failed(e) => r == Err::<bool, UnwindError>(e),
                StepResult::Abort => false,
            },
    {
        if self.pos >= ops.len() {
            return Ok(false);
        }
        let b = ops[self.pos];
        let p = self.pos + 1;
        let operand = (b & 0x3f) as usize;
        let op = match Opcode::try_from(b) {
            Some(op) => op,
            None => {
                return Err(UnwindError::BadOpcode(b));
            },
        };
        match op {
            Opcode::AdvanceLoc => {
                assert(operand <= 63) by (bit_vector)
                    requires
                        operand == (b & 0x3f) as usize,
                ;
                let inc = operand * caf;
                self.ip = self.ip + inc;
                self.pos = p;
            },
            Opcode::Offset => {
                if operand >= NUM_REGS {
                    return Err(UnwindError::BadRegister);
                }
                let (v, q) = uleb(ops, p)?;
                let d = (v as isize) * daf;
                self.set_rule(operand, Delta::CfaRelative(d as usize), q);
            },
            Opcode::Restore => {
                if operand >= NUM_REGS {
                    return Err(UnwindError::BadRegister);
                }
                let d = self.initial.state.deltas[operand];
                self.set_rule(operand, d, p);
            },
            Opcode::Nop => {
                self.pos = p;
            },
            Opcode::AdvanceLoc1 => {
                if p >= ops.len() {
                    return Err(UnwindError::ParsingFailure);
                }
                let v = ops[p] as usize;
                self.ip = self.ip.wrapping_add(v.wrapping_mul(caf));
                self.pos = p + 1;
            },
            Opcode::AdvanceLoc2 => {
                if ops.len() - p < 2 {
                    return Err(UnwindError::ParsingFailure);
                }
                let v = (ops[p] as usize) + (ops[p + 1] as usize) * 0x100;
                self.ip = self.ip.wrapping_add(v.wrapping_mul(caf));
                self.pos = p + 2;
            },
            Opcode::AdvanceLoc4 => {
                if ops.len() - p < 4 {
                    return Err(UnwindError::ParsingFailure);
                }
                let v = (ops[p] as u64) + (ops[p + 1] as u64) * 0x100 + (ops[p + 2] as u64) * 0x1_0000
                    + (ops[p + 3] as u64) * 0x100_0000;
                let v = v as usize;
                self.ip = self.ip.wrapping_add(v.wrapping_mul(caf));
                self.pos = p + 4;
            },
            Opcode::OffsetExtended => {
                let (r, q) = reg(ops, p)?;
                let (v, q2) = uleb(ops, q)?;
                self.set_rule(r, Delta::CfaRelative((v as isize).wrapping_mul(daf) as usize), q2);
            },
            Opcode::RestoreExtended => {
                let (r, q) = reg(ops, p)?;
                let d = self.initial.state.deltas[r];
                self.set_rule(r, d, q);
            },
            Opcode::Undefined => {
                let (r, q) = reg(ops, p)?;
                self.set_rule(r, Delta::Undef, q);
            },
            Opcode::SameValue => {
                let (r, q) = reg(ops, p)?;
                self.set_rule(r, Delta::Same, q);
            },
            Opcode::Register => {
                let (r, q) = reg(ops, p)?;
                match reg(ops, q) {
                    Ok((f, q2)) => {
                        self.set_rule(r, Delta::Reg(f), q2);
                    },
                    Err(e) => {
                        return Err(e);
                    },
                }
            },
            Opcode::RememberState => {
                self.stack.push(self.result.state);
                self.pos = p;
            },
            Opcode::RestoreState => {
                match self.stack.pop() {
                    Some(st) => {
                        self.result.state = st;
                        self.pos = p;
                    },
                    None => {
                        return Err(UnwindError::InvalidOp(0x0b));
                    },
                }
            },
            Opcode::DefCfa => {
                let (r, q) = reg(ops, p)?;
                let (v, q2) = uleb(ops, q)?;
                self.set_rule(DWARF_CFA_REG_COLUMN, Delta::Reg(r), q);
                self.set_cfa_off(v, q2);
            },
            Opcode::DefCfaRegister => {
                let (r, q) = reg(ops, p)?;
                self.set_rule(DWARF_CFA_REG_COLUMN, Delta::Reg(r), q);
            },
            Opcode::DefCfaOffset => {
                let (v, q) = uleb(ops, p)?;
                self.set_cfa_off(v, q);
            },
            Opcode::OffsetExtendedSf => {
                let (r, q) = reg(ops, p)?;
                let (v, q2) = sleb(ops, q)?;
                self.set_rule(r, Delta::CfaRelative(v.wrapping_mul(daf) as usize), q2);
            },
            Opcode::DefCfaSf => {
                let (r, q) = reg(ops, p)?;
                let (v, q2) = sleb(ops, q)?;
                self.set_rule(DWARF_CFA_REG_COLUMN, Delta::Reg(r), q);
                self.set_cfa_off(v.wrapping_mul(daf) as usize, q2);
            },
            Opcode::DefCfaOffsetSf => {
                let (v, q) = sleb(ops, p)?;
                self.set_cfa_off(v.wrapping_mul(daf) as usize, q);
            },
            Opcode::LoUser => {
                return Err(UnwindError::BadOpcode(0x1c));
            },
            Opcode::MipsAdvanceLoc8 => {
                return Err(UnwindError::BadOpcode(0x1d));
            },
            Opcode::GnuWindowSave => {
                return Err(UnwindError::BadOpcode(0x2d));
            },
            Opcode::GnuArgsSize => {
                let (v, q) = uleb(ops, p)?;
                self.args_size = Some(v);
                self.pos = q;
            },
            Opcode::GnuNegativeOffsetExtended => {
                let (r, q) = reg(ops, p)?;
                let (v, q2) = uleb(ops, q)?;
                let d = (v as isize) * daf;
                self.set_rule(r, Delta::CfaRelative((-d) as usize), q2);
            },
            Opcode::HiUser => {
                return Err(UnwindError::BadOpcode(0x1c));
            },
            _ => {
                assert(false);
                return Err(UnwindError::BadOpcode(b));
            },
        }
        Ok(true)
    }
}

/// A byte below 0x40 names an extended instruction: its two high bits are clear.
proof fn lemma_extended_opcode_byte(b: u8)
    by (bit_vector)
    requires
        b < 0x40,
    ensures
        b & 0xc0 == 0,
{
}

/// `DW_CFA_advance_loc2` and `DW_CFA_advance_loc4` read their operand
/// little-endian (the first byte is the lowest digit in base 256), and
/// advance the location by that many code units of `caf` bytes (exactly,
/// when that does not overflow), moving past the operand.
pub proof fn lemma_advance_loc_little_endian(ops: Seq<u8>, caf: usize, daf: isize, c: CursorView)
    requires
        0 <= c.pos,
        c.pos + 5 <= ops.len(),
        ops[c.pos] == 0x03 || ops[c.pos] == 0x04,
    ensures
        ({
            let b = |k: int| ops[c.pos + 1 + k] as int;
            let v = if ops[c.pos] == 0x03 {
                b(0) + 256 * b(1)
            } else {
                b(0) + 256 * (b(1) + 256 * (b(2) + 256 * b(3)))
            };
            &&& step_spec(ops, caf, daf, c) matches StepResult::Continue(n)
            &&& n.pos == c.pos + (if ops[c.pos] == 0x03 { 3int } else { 5int })
            &&& c.ip + v * caf <= usize::MAX ==> n.ip == c.ip + v * caf
        }),
{
    let p = c.pos + 1;
    let n = if ops[c.pos] == 0x03 { 2int } else { 4int };
    let v = read_fixed(ops, p, n)->0;
    let b = |k: int| ops[c.pos + 1 + k] as int;
    let w = if ops[c.pos] == 0x03 {
        b(0) + 256 * b(1)
    } else {
        b(0) + 256 * (b(1) + 256 * (b(2) + 256 * b(3)))
    };
    assert(v == w);
    assert(0 <= v <= 0xffff_ffff);
    lemma_extended_opcode_byte(ops[c.pos]);
    assert(step_spec(ops, caf, daf, c) == StepResult::Continue(
        CursorView { pos: p + n, ip: advance_wrapping(c.ip, v, caf), ..c },
    ));
    if c.ip + v * caf <= usize::MAX {
        assert(0 <= v * caf) by (nonlinear_arith)
            requires
                0 <= v,
                0 <= caf,
        ;
        assert((v as usize) as int == v);
        let m = vstd::wrapping::usize_specs::wrapping_mul(v as usize, caf);
        vstd::arithmetic::div_mod::lemma_small_mod((v * caf) as nat, (usize::MAX + 1) as nat);
        assert(m == v * caf);
        assert(advance_wrapping(c.ip, v, caf) == c.ip + v * caf);
    }
}

} // verus!
