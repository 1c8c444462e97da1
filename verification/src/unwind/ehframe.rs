//! The `.eh_frame_hdr` binary search table.
use vstd::prelude::*;
use super::reader::{DwarfReader, Encoding, Peeker, encoding_valid};
use super::machine::{
    init_cursor, run_spec, Delta, ExecutionResult, Operations, RegisterStates, RunResult, NUM_REGS,
};
use super::UnwindError;
use core::ops::Range;

verus! {

/// Where a frame description entry lives.
#[derive(Debug, Clone, Copy, PartialEq, Eq, Structural)]
pub struct FrameDescriptionEntryPointer(pub usize);

/// Where a common information entry lives.
#[derive(Debug, Clone, Copy, PartialEq, Eq, Structural)]
pub struct CommonInformationEntryPointer(pub usize);

/// An entry of the binary search table: the start address a frame
/// description entry covers, and where that entry lives.
#[derive(Debug, Clone, Copy, PartialEq, Eq, Structural)]
pub struct UnwindIndex {
    pub addr_offset: usize,
    pub insn: FrameDescriptionEntryPointer,
}

/// The value a read with encoding `e` gives on reader `r`, and the reader after it.
pub open spec fn read_enc<T: Peeker>(r: DwarfReader<T>, e: Encoding) -> Option<(usize, DwarfReader<T>)> {
    if r.can_read_encoded(e) {
        match r.encoded(e) {
            Some((v, n)) => Some(
                (vstd::wrapping::usize_specs::wrapping_add(r.encoding_base(e), v), r.advanced(n as int)),
            ),
            None => None,
        }
    } else {
        None
    }
}

/// The decoded header of `.eh_frame_hdr` read by `r`: the `eh_frame` pointer,
/// the entry count, the reader positioned at the table, and the table encoding.
pub open spec fn header_spec<T: Peeker>(r: DwarfReader<T>) -> Option<(usize, usize, DwarfReader<T>, Encoding)> {
    if r.can_read(4) && r.fixed_value(4) is Some {
        let v = r.fixed_value(4)->0 as u32;
        let (b0, b1, b2, b3) = (v as u8, (v >> 8u32) as u8, (v >> 16u32) as u8, (v >> 24u32) as u8);
        if b0 == 1 && encoding_valid(b1) && encoding_valid(b2) && encoding_valid(b3) {
            let e1 = Encoding::spec_from(b1);
            let e2 = Encoding::spec_from(b2);
            let e3 = Encoding::spec_from(b3);
            match read_enc(r.advanced(4), e1) {
                Some((ptr, r2)) => match read_enc(r2, e2) {
                    Some((count, r3)) => if count * e3.spec_size() * 2 + r3.spec_start() + r3.spec_pos()
                        <= r3.spec_end() {
                        Some((ptr, count, r3, e3))
                    } else {
                        None
                    },
                    None => None,
                },
                None => None,
            }
        } else {
            None
        }
    } else {
        None
    }
}

/// The header of `.eh_frame_hdr`.
pub struct EhFrameHeader<T: Peeker> {
    eh_frame_ptr: usize,
    fde_count: usize,
    bst_parser_snapshot: DwarfReader<T>,
    bst_entry_encoding: Encoding,
}

impl<T: Peeker> EhFrameHeader<T> {
    /// Number of entries in the table.
    pub closed spec fn count(&self) -> usize {
        self.fde_count
    }

    /// Pointer to the `.eh_frame` section.
    pub closed spec fn spec_eh_frame_ptr(&self) -> usize {
        self.eh_frame_ptr
    }

    /// Reader positioned at the table.
    pub closed spec fn table(&self) -> DwarfReader<T> {
        self.bst_parser_snapshot
    }

    /// Encoding of the table entries.
    pub closed spec fn encoding(&self) -> Encoding {
        self.bst_entry_encoding
    }

    /// Entry `idx` of the table, when it decodes.
    pub open spec fn entry(&self, idx: int) -> Option<UnwindIndex> {
        let r = self.table().advanced(idx * self.encoding().spec_size() * 2);
        match read_enc(r, self.encoding()) {
            Some((a, r2)) => match read_enc(r2, self.encoding()) {
                Some((b, _)) => Some(UnwindIndex { addr_offset: a, insn: FrameDescriptionEntryPointer(b) }),
                None => None,
            },
            None => None,
        }
    }

    /// Whether every entry of the table decodes.
    pub open spec fn table_ok(&self) -> bool {
        &&& forall|i: int| 0 <= i < self.count() ==> (#[trigger] self.entry(i)) is Some
        &&& self.count() * self.encoding().spec_size() * 2 + self.table().spec_start()
            + self.table().spec_pos() <= self.table().spec_end()
    }

    /// Parse the header `parser` points at.
    pub fn parse(parser: DwarfReader<T>) -> (r: Self)
        requires
            header_spec(parser) is Some,
        ensures
            header_spec(parser) == Some((r.spec_eh_frame_ptr(), r.count(), r.table(), r.encoding())),
    {
        let mut parser = parser;
        let ghost p0 = parser;
        let raw = parser.read_u32().unwrap();
        let eh_frame_ptr_enc = ((raw >> 8u32) & 0xff) as u8;
        let fde_count_enc = ((raw >> 16u32) & 0xff) as u8;
        let table_enc = ((raw >> 24u32) & 0xff) as u8;
        assert(eh_frame_ptr_enc == (raw >> 8u32) as u8 && fde_count_enc == (raw >> 16u32) as u8
            && table_enc == (raw >> 24u32) as u8) by (bit_vector)
            requires
                eh_frame_ptr_enc == ((raw >> 8u32) & 0xff) as u8,
                fde_count_enc == ((raw >> 16u32) & 0xff) as u8,
                table_enc == ((raw >> 24u32) & 0xff) as u8,
        ;
        let (e1, e2, e3) = (
            Encoding::from(eh_frame_ptr_enc),
            Encoding::from(fde_count_enc),
            Encoding::from(table_enc),
        );
        proof {
            p0.lemma_advanced(4);
            DwarfReader::lemma_same_state(parser, p0.advanced(4));
        }
        let ghost p1 = parser;
        let eh_frame_ptr = parser.read_with_encoding(e1).unwrap();
        proof {
            let (_, n) = p1.encoded(e1)->0;
            p1.lemma_advanced(n as int);
            DwarfReader::lemma_same_state(parser, p1.advanced(n as int));
        }
        let ghost p2 = parser;
        let fde_count = parser.read_with_encoding(e2).unwrap();
        proof {
            let (_, n) = p2.encoded(e2)->0;
            p2.lemma_advanced(n as int);
            DwarfReader::lemma_same_state(parser, p2.advanced(n as int));
        }
        Self { eh_frame_ptr, fde_count, bst_parser_snapshot: parser, bst_entry_encoding: e3 }
    }

    /// Entry `idx` of the binary search table.
    pub fn get(&self, idx: usize) -> (r: Option<UnwindIndex>)
        requires
            self.table_ok(),
        ensures
            r == (if idx < self.count() {
                self.entry(idx as int)
            } else {
                None
            }),
    {
        if self.fde_count > idx {
            let ghost e = self.bst_entry_encoding;
            assert(self.entry(idx as int) is Some);
            let mut parser = self.bst_parser_snapshot.duplicate();
            let size = self.bst_entry_encoding.size();
            assert(idx * size * 2 <= self.fde_count * size * 2) by (nonlinear_arith)
                requires
                    idx < self.fde_count,
            ;
            let step = idx * size * 2;
            assert((step as isize) as usize == step) by (bit_vector);
            parser.wheel(step as isize);
            let ghost t = self.bst_parser_snapshot.advanced(step as int);
            proof {
                self.bst_parser_snapshot.lemma_advanced(step as int);
                DwarfReader::lemma_congruent(parser, t, e);
            }
            let ghost p1 = parser;
            let addr_offset = parser.read_with_encoding(self.bst_entry_encoding).unwrap();
            proof {
                let (_, n) = p1.encoded(e)->0;
                p1.lemma_advanced(n as int);
                t.lemma_advanced(n as int);
                DwarfReader::lemma_advanced_congruent(p1, t, n as int);
                DwarfReader::lemma_congruent(parser, t.advanced(n as int), e);
            }
            let insn = parser.read_with_encoding(self.bst_entry_encoding).unwrap();
            Some(UnwindIndex { addr_offset, insn: FrameDescriptionEntryPointer(insn) })
        } else {
            None
        }
    }

    /// Whether entry `i` is where a binary search for `pc` may stop: no entry
    /// before the second-to-last one after it starts at or below `pc`, and it
    /// starts at or below `pc` unless it is the first one.
    pub open spec fn search_stop(&self, pc: usize, i: int) -> bool {
        &&& 0 <= i < self.count() - 1
        &&& (i == 0 || self.entry(i)->0.addr_offset <= pc)
        &&& (i == self.count() - 2 || self.entry(i + 1)->0.addr_offset > pc)
    }

    /// Whether the table is sorted by start address.
    pub open spec fn sorted(&self) -> bool {
        forall|i: int, j: int|
            0 <= i < j < self.count() ==> (#[trigger] self.entry(i))->0.addr_offset <= (#[trigger] self.entry(
                j,
            ))->0.addr_offset
    }

    /// Binary search the table for the entry covering `pc`.
    pub fn find(&self, pc: usize) -> (r: Option<UnwindIndex>)
        requires
            self.table_ok(),
            self.count() >= 2,
        ensures
            exists|i: int| self.search_stop(pc, i) && r == #[trigger] self.entry(i),
    {
        let mut lo: usize = 0;
        let mut hi: usize = self.fde_count - 1;
        while lo < hi - 1
            invariant
                self.table_ok(),
                self.count() >= 2,
                hi == self.count() - 1 || lo < hi,
                lo < hi <= self.count() - 1,
                lo == 0 || self.entry(lo as int)->0.addr_offset <= pc,
                hi == self.count() - 1 || self.entry(hi as int)->0.addr_offset > pc,
            decreases hi - lo,
        {
            let mid = lo + (hi - lo) / 2;
            let e = match self.get(mid) {
                Some(e) => e,
                None => return None,
            };
            if e.addr_offset <= pc {
                lo = mid;
            } else {
                hi = mid;
            }
        }
        let r = self.get(lo);
        assert(self.search_stop(pc, lo as int));
        r
    }
}

/// In a sorted table the binary search has one place to stop: the last entry
/// (short of the final one) that starts at or below `pc`, or the first entry.
pub proof fn lemma_sorted_search_unique<T: Peeker>(h: EhFrameHeader<T>, pc: usize, i: int, j: int)
    requires
        h.table_ok(),
        h.sorted(),
        h.search_stop(pc, i),
        h.search_stop(pc, j),
    ensures
        i == j,
{
    if i < j {
        assert(h.entry(i + 1)->0.addr_offset <= h.entry(j)->0.addr_offset);
    } else if j < i {
        assert(h.entry(j + 1)->0.addr_offset <= h.entry(i)->0.addr_offset);
    }
}

/// A common information entry: the parts the call-frame machine uses.
pub struct CommonInformationEntry {
    pub cie_id: u32,
    pub code_align_factor: usize,
    pub data_align_factor: isize,
    pub ret_addr_column: u8,
    pub initial_instructions: Operations,
    pub lsda_encoding: Option<Encoding>,
    pub fde_encoding: Option<Encoding>,
    pub personality: Option<usize>,
}

/// A frame description entry: its CIE, the code it covers, its language
/// data and its instructions.
pub struct FrameDescriptionEntry {
    pub cie: CommonInformationEntry,
    pub pc: Range<usize>,
    pub lsda: Option<usize>,
    pub instructions: Operations,
}

/// The register column of DWARF register number `regnum`.
pub fn register_of(regnum: usize) -> (r: Result<usize, UnwindError>)
    ensures
        regnum < NUM_REGS ==> r == Ok::<usize, UnwindError>(regnum),
        regnum >= NUM_REGS ==> r is Err,
{
    if regnum < NUM_REGS {
        Ok(regnum)
    } else {
        Err(UnwindError::UnknownRegister)
    }
}

/// The rules of an FDE at `pc`: the CIE's initial instructions run to the
/// end from rules that keep every register at the FDE's start, then the
/// FDE's instructions run up to `pc`.
pub open spec fn fde_rules(fde: &FrameDescriptionEntry, pc: usize) -> RunResult {
    let base = ExecutionResult {
        state: RegisterStates {
            cfa_off_column: 0,
            return_address_column: fde.cie.ret_addr_column as usize,
            deltas: vstd::array::spec_array_fill_for_copy_type::<Delta, 18>(Delta::Same),
        },
        ip: fde.pc.start,
    };
    let cie = &fde.cie;
    match run_spec(cie.initial_instructions.ops@, cie.code_align_factor, cie.data_align_factor, usize::MAX, init_cursor(base)) {
        RunResult::Done(init) => run_spec(fde.instructions.ops@, cie.code_align_factor, cie.data_align_factor, pc, init_cursor(init)),
        other => other,
    }
}

impl FrameDescriptionEntry {
    /// The rules at `pc`.
    pub fn run(&self, pc: usize) -> (r: Result<ExecutionResult, UnwindError>)
        requires
            self.cie.ret_addr_column < NUM_REGS ==> !(fde_rules(self, pc) is Abort),
        ensures
            self.cie.ret_addr_column >= NUM_REGS ==> r is Err,
            self.cie.ret_addr_column < NUM_REGS ==> match fde_rules(self, pc) {
                RunResult::Done(res) => r matches Ok(x) && x == res,
                RunResult::Failed(e) => r == Err::<ExecutionResult, UnwindError>(e),
                RunResult::Abort => false,
            },
    {
        let col = register_of(self.cie.ret_addr_column as usize)?;
        let base = ExecutionResult::new_boxed(col, self.pc.start);
        assert(base.state.deltas =~= vstd::array::spec_array_fill_for_copy_type::<Delta, 18>(Delta::Same));
        let init = self.cie.initial_instructions.run_from_result(usize::MAX, base, &self.cie)?;
        self.instructions.run_from_result(pc, init, &self.cie)
    }
}

} // verus!
