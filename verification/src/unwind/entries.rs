//! Common information entries and frame description entries of
//! `.eh_frame`: their byte layout and their parsers.
use vstd::prelude::*;
use super::reader::{
    encoding_valid, opt_le, opt_u8, sleb_value, uleb_value, DwarfReader, Encoding, Peeker,
};
use super::ehframe::{
    CommonInformationEntry, CommonInformationEntryPointer, FrameDescriptionEntry,
    FrameDescriptionEntryPointer,
};
use super::reader::Application;
use super::machine::Operations;

verus! {

/// The outcome of decoding a record.
pub enum Decoded<A> {
    /// The record decodes to this.
    Entry(A),
    /// The parser gives up on the record.
    Rejected,
    /// A length or offset of the record takes the arithmetic out of the
    /// machine's range, or an encoding byte is unknown: parsing such a record
    /// is not defined.
    Undefined,
}

/// A fixed-size little-endian read of `n` bytes, and the reader after it.
pub open spec fn dec_fixed<T: Peeker>(r: DwarfReader<T>, n: nat) -> Decoded<(u64, DwarfReader<T>)> {
    if !r.can_read(n) {
        Decoded::Undefined
    } else if !r.fits(n) {
        Decoded::Rejected
    } else {
        match opt_le(r.next_bytes(n)) {
            Some(v) => Decoded::Entry((v, r.advanced(n as int))),
            None => Decoded::Rejected,
        }
    }
}

/// An unsigned LEB128 read, and the reader after it.
pub open spec fn dec_uleb<T: Peeker>(r: DwarfReader<T>) -> Decoded<(usize, DwarfReader<T>)> {
    if !r.can_read_leb() {
        Decoded::Undefined
    } else {
        match r.next_leb() {
            Some(s) => Decoded::Entry((uleb_value(s), r.advanced(s.len() as int))),
            None => Decoded::Rejected,
        }
    }
}

/// A signed LEB128 read, and the reader after it.
pub open spec fn dec_sleb<T: Peeker>(r: DwarfReader<T>) -> Decoded<(isize, DwarfReader<T>)> {
    if !r.can_read_leb() {
        Decoded::Undefined
    } else {
        match r.next_leb() {
            Some(s) => Decoded::Entry((sleb_value(s), r.advanced(s.len() as int))),
            None => Decoded::Rejected,
        }
    }
}

/// A byte read whose failure does not stop the parser: a byte inside the
/// window is consumed even when it cannot be read.
pub open spec fn dec_opt_u8<T: Peeker>(r: DwarfReader<T>) -> Decoded<(Option<u8>, DwarfReader<T>)> {
    if !r.can_read(1) {
        Decoded::Undefined
    } else if !r.fits(1) {
        Decoded::Entry((None, r))
    } else {
        Decoded::Entry((opt_u8(opt_le(r.next_bytes(1))), r.advanced(1)))
    }
}

/// An optional pointer-encoding byte.
pub open spec fn dec_opt_encoding<T: Peeker>(r: DwarfReader<T>) -> Decoded<(Option<Encoding>, DwarfReader<T>)> {
    match dec_opt_u8(r) {
        Decoded::Entry((Some(b), r2)) => if encoding_valid(b) {
            Decoded::Entry((Some(Encoding::spec_from(b)), r2))
        } else {
            Decoded::Undefined
        },
        Decoded::Entry((None, r2)) => Decoded::Entry((None, r2)),
        Decoded::Rejected => Decoded::Rejected,
        Decoded::Undefined => Decoded::Undefined,
    }
}

/// An optional value in encoding `e`.
pub open spec fn dec_opt_encoded<T: Peeker>(r: DwarfReader<T>, e: Encoding) -> Decoded<(Option<usize>, DwarfReader<T>)> {
    if !r.can_read_encoded(e) {
        Decoded::Undefined
    } else {
        let v = match r.encoded(e) {
            Some((v, _)) => Some(vstd::wrapping::usize_specs::wrapping_add(r.encoding_base(e), v)),
            None => None,
        };
        Decoded::Entry((v, r.advanced(r.encoded_advance(e) as int)))
    }
}

/// The augmentation letters a common information entry may use: `z`, `L`,
/// `P` and `R`.
pub open spec fn is_augmentation_letter(e: u8) -> bool {
    e == 0x7a || e == 0x4c || e == 0x50 || e == 0x52
}

/// The augmentation string, after the letters `acc`: at most four known
/// letters, then a zero byte.
pub open spec fn dec_augmentation<T: Peeker>(r: DwarfReader<T>, acc: Seq<u8>) -> Decoded<(Seq<u8>, DwarfReader<T>)>
    decreases 4 - acc.len(),
{
    match dec_fixed(r, 1) {
        Decoded::Entry((v, r2)) => {
            let e = v as u8;
            if e == 0 {
                Decoded::Entry((acc, r2))
            } else if is_augmentation_letter(e) && acc.len() < 4 {
                dec_augmentation(r2, acc.push(e))
            } else {
                Decoded::Rejected
            }
        },
        Decoded::Rejected => Decoded::Rejected,
        Decoded::Undefined => Decoded::Undefined,
    }
}

/// What the augmentation data of a common information entry gives: the
/// encoding of language data, the personality routine and the encoding of
/// frame description entries' pointers.
pub type AugmentationData = (Option<Encoding>, Option<usize>, Option<Encoding>);

/// One augmentation letter's data.
pub open spec fn dec_augmentation_item<T: Peeker>(r: DwarfReader<T>, c: u8, st: AugmentationData) -> Decoded<(AugmentationData, DwarfReader<T>)> {
    if c == 0x4c {
        match dec_opt_encoding(r) {
            Decoded::Entry((e, r2)) => Decoded::Entry(((e, st.1, st.2), r2)),
            Decoded::Rejected => Decoded::Rejected,
            Decoded::Undefined => Decoded::Undefined,
        }
    } else if c == 0x50 {
        match dec_opt_u8(r) {
            Decoded::Entry((None, r2)) => Decoded::Entry(((st.0, None, st.2), r2)),
            Decoded::Entry((Some(b), r2)) => if !encoding_valid(b) {
                Decoded::Undefined
            } else {
                match dec_opt_encoded(r2, Encoding::spec_from(b)) {
                    Decoded::Entry((p, r3)) => Decoded::Entry(((st.0, p, st.2), r3)),
                    Decoded::Rejected => Decoded::Rejected,
                    Decoded::Undefined => Decoded::Undefined,
                }
            },
            Decoded::Rejected => Decoded::Rejected,
            Decoded::Undefined => Decoded::Undefined,
        }
    } else if c == 0x52 {
        match dec_opt_encoding(r) {
            Decoded::Entry((e, r2)) => Decoded::Entry(((st.0, st.1, e), r2)),
            Decoded::Rejected => Decoded::Rejected,
            Decoded::Undefined => Decoded::Undefined,
        }
    } else {
        Decoded::Rejected
    }
}

/// The augmentation data for letters `aug[i..]`, which may not reach past
/// `max_offset`.
pub open spec fn dec_augmentation_data<T: Peeker>(
    r: DwarfReader<T>,
    aug: Seq<u8>,
    i: int,
    max_offset: int,
    st: AugmentationData,
) -> Decoded<(AugmentationData, DwarfReader<T>)>
    decreases aug.len() - i,
{
    if i >= aug.len() {
        Decoded::Entry((st, r))
    } else {
        match dec_augmentation_item(r, aug[i], st) {
            Decoded::Entry((st2, r2)) => if r2.spec_pos() > max_offset {
                Decoded::Rejected
            } else {
                dec_augmentation_data(r2, aug, i + 1, max_offset, st2)
            },
            Decoded::Rejected => Decoded::Rejected,
            Decoded::Undefined => Decoded::Undefined,
        }
    }
}

/// Read the augmentation string.
fn read_augmentation<T: Peeker>(reader: &mut DwarfReader<T>) -> (r: Option<Vec<u8>>)
    requires
        !(dec_augmentation(*old(reader), seq![]) is Undefined),
    ensures
        final(reader).spec_peeker() == old(reader).spec_peeker(),
        match dec_augmentation(*old(reader), seq![]) {
            Decoded::Entry((aug, r2)) => r is Some && r->0@ == aug && *final(reader) == r2,
            Decoded::Rejected => r is None,
            Decoded::Undefined => false,
        },
{
    let mut aug: Vec<u8> = Vec::new();
    assert(aug@ =~= seq![]);
    loop
        invariant
            aug@.len() <= 4,
            reader.spec_peeker() == old(reader).spec_peeker(),
            dec_augmentation(*old(reader), seq![]) == dec_augmentation(*reader, aug@),
            !(dec_augmentation(*reader, aug@) is Undefined),
        decreases 4 - aug@.len(),
    {
        let ghost r0 = *reader;
        let e = match reader.read_u8() {
            Some(e) => e,
            None => return None,
        };
        proof {
            r0.lemma_advanced(1);
            DwarfReader::lemma_same_state(*reader, r0.advanced(1));
        }
        if e == 0 {
            return Some(aug);
        } else if (e == 0x7a || e == 0x4c || e == 0x50 || e == 0x52) && aug.len() < 4 {
            aug.push(e);
        } else {
            return None;
        }
    }
}

/// Read one augmentation letter's data.
fn read_augmentation_item<T: Peeker>(reader: &mut DwarfReader<T>, c: u8, st: AugmentationData) -> (r: Option<AugmentationData>)
    requires
        !(dec_augmentation_item(*old(reader), c, st) is Undefined),
    ensures
        final(reader).spec_peeker() == old(reader).spec_peeker(),
        match dec_augmentation_item(*old(reader), c, st) {
            Decoded::Entry((st2, r2)) => r == Some(st2) && *final(reader) == r2,
            Decoded::Rejected => r is None,
            Decoded::Undefined => false,
        },
{
    let ghost r0 = *reader;
    let (lsda, personality, fde) = st;
    if c == 0x4c || c == 0x52 {
        let b = reader.read_u8();
        proof {
            r0.lemma_advanced(1);
            if r0.fits(1) {
                DwarfReader::lemma_same_state(*reader, r0.advanced(1));
            } else {
                DwarfReader::lemma_same_state(*reader, r0);
            }
        }
        let e = match b {
            Some(b) => Some(Encoding::from(b)),
            None => None,
        };
        if c == 0x4c {
            Some((e, personality, fde))
        } else {
            Some((lsda, personality, e))
        }
    } else if c == 0x50 {
        let b = reader.read_u8();
        proof {
            r0.lemma_advanced(1);
            if r0.fits(1) {
                DwarfReader::lemma_same_state(*reader, r0.advanced(1));
            } else {
                DwarfReader::lemma_same_state(*reader, r0);
            }
        }
        match b {
            Some(b) => {
                let e = Encoding::from(b);
                let ghost r1 = *reader;
                let p = reader.read_with_encoding(e);
                proof {
                    r1.lemma_advanced(r1.encoded_advance(e) as int);
                    DwarfReader::lemma_same_state(*reader, r1.advanced(r1.encoded_advance(e) as int));
                }
                Some((lsda, p, fde))
            },
            None => Some((lsda, None, fde)),
        }
    } else {
        None
    }
}

/// Read the augmentation data of the letters after the first, not reaching
/// past `max_offset`.
fn read_augmentation_data<T: Peeker>(reader: &mut DwarfReader<T>, aug: &Vec<u8>, max_offset: usize) -> (r: Option<AugmentationData>)
    requires
        !(dec_augmentation_data(*old(reader), aug@, 1, max_offset as int, (None, None, None)) is Undefined),
    ensures
        final(reader).spec_peeker() == old(reader).spec_peeker(),
        match dec_augmentation_data(*old(reader), aug@, 1, max_offset as int, (None, None, None)) {
            Decoded::Entry((st, r2)) => r == Some(st) && *final(reader) == r2,
            Decoded::Rejected => r is None,
            Decoded::Undefined => false,
        },
{
    let mut st: AugmentationData = (None, None, None);
    let mut i: usize = 1;
    if aug.len() == 0 {
        return Some(st);
    }
    while i < aug.len()
        invariant
            1 <= i <= aug.len(),
            reader.spec_peeker() == old(reader).spec_peeker(),
            dec_augmentation_data(*old(reader), aug@, 1, max_offset as int, (None, None, None))
                == dec_augmentation_data(*reader, aug@, i as int, max_offset as int, st),
            !(dec_augmentation_data(*reader, aug@, i as int, max_offset as int, st) is Undefined),
        decreases aug.len() - i,
    {
        let st2 = match read_augmentation_item(reader, aug[i], st) {
            Some(s) => s,
            None => return None,
        };
        if reader.position() > max_offset {
            return None;
        }
        st = st2;
        i = i + 1;
    }
    Some(st)
}

/// The length field of a record: four bytes, or eight more after a first
/// four of `0xffff_ffff`.
pub open spec fn dec_length<T: Peeker>(r: DwarfReader<T>) -> Decoded<(u64, DwarfReader<T>)> {
    match dec_fixed(r, 4) {
        Decoded::Entry((v, r1)) => if v as u32 == 0xffff_ffffu32 {
            dec_fixed(r1, 8)
        } else {
            Decoded::Entry(((v as u32) as u64, r1))
        },
        Decoded::Rejected => Decoded::Rejected,
        Decoded::Undefined => Decoded::Undefined,
    }
}

/// The reader bounded to the record whose length `length` it just read,
/// with the record's end relative to the start; `None` where that end is
/// out of the machine's range.
pub open spec fn bounded_to_record<T: Peeker>(r: DwarfReader<T>, length: u64) -> Option<(DwarfReader<T>, usize)> {
    let new_end = r.spec_pos() + (length as usize);
    if new_end > usize::MAX || r.spec_start() + new_end > usize::MAX {
        None
    } else if r.spec_end() >= r.spec_start() + new_end {
        Some((r.with_end((r.spec_start() + new_end) as usize), new_end as usize))
    } else {
        Some((r, new_end as usize))
    }
}

/// The fields of a common information entry: its id, code and data
/// alignment factors, return-address column, the encodings of language
/// data and of FDE pointers, the personality routine, and its initial
/// instructions.
pub type CieFields = (u32, usize, isize, u8, Option<Encoding>, Option<Encoding>, Option<usize>, Seq<u8>);

/// The fields of `cie`.
pub open spec fn cie_fields(cie: &CommonInformationEntry) -> CieFields {
    (
        cie.cie_id,
        cie.code_align_factor,
        cie.data_align_factor,
        cie.ret_addr_column,
        cie.lsda_encoding,
        cie.fde_encoding,
        cie.personality,
        cie.initial_instructions.ops@,
    )
}

/// The instructions that fill a record up to `new_end` from where `r` is.
pub open spec fn dec_instructions<T: Peeker>(r: DwarfReader<T>, new_end: usize) -> Decoded<Seq<u8>> {
    if new_end < r.spec_pos() || r.spec_start() + new_end > usize::MAX {
        Decoded::Undefined
    } else {
        match r.next_bytes((new_end - r.spec_pos()) as nat) {
            Some(s) => Decoded::Entry(s),
            None => Decoded::Rejected,
        }
    }
}

/// A common information entry after its augmentation string `aug`, up to
/// `new_end`.
pub open spec fn dec_cie_tail<T: Peeker>(r: DwarfReader<T>, new_end: usize, cie_id: u32, aug: Seq<u8>) -> Decoded<CieFields> {
    match dec_uleb(r) {
        Decoded::Entry((caf, r7)) => match dec_sleb(r7) {
            Decoded::Entry((daf, r8)) => match dec_fixed(r8, 1) {
                Decoded::Entry((ret, r9)) => {
                    let data = if aug.len() > 0 && aug[0] == 0x7a {
                        match dec_uleb(r9) {
                            Decoded::Entry((alen, r10)) => if r10.spec_pos() + alen > usize::MAX {
                                Decoded::Undefined
                            } else {
                                dec_augmentation_data(r10, aug, 1, r10.spec_pos() + alen, (None, None, None))
                            },
                            Decoded::Rejected => Decoded::Rejected,
                            Decoded::Undefined => Decoded::Undefined,
                        }
                    } else {
                        Decoded::Entry(((None, None, None), r9))
                    };
                    match data {
                        Decoded::Entry((st, r11)) => match dec_instructions(r11, new_end) {
                            Decoded::Entry(ins) => Decoded::Entry(
                                (cie_id, caf, daf, ret as u8, st.0, st.2, st.1, ins),
                            ),
                            Decoded::Rejected => Decoded::Rejected,
                            Decoded::Undefined => Decoded::Undefined,
                        },
                        Decoded::Rejected => Decoded::Rejected,
                        Decoded::Undefined => Decoded::Undefined,
                    }
                },
                Decoded::Rejected => Decoded::Rejected,
                Decoded::Undefined => Decoded::Undefined,
            },
            Decoded::Rejected => Decoded::Rejected,
            Decoded::Undefined => Decoded::Undefined,
        },
        Decoded::Rejected => Decoded::Rejected,
        Decoded::Undefined => Decoded::Undefined,
    }
}

/// The version of common information entries this parser reads.
pub const CIE_VERSION: u8 = 1;

/// The common information entry at address `at`, read through the bytes
/// `r` sees: its length, id, version (which must be 1), augmentation
/// string, alignment factors, return-address column, augmentation data,
/// and initial instructions up to the end of the record.
pub open spec fn dec_cie<T: Peeker>(r: DwarfReader<T>, at: usize) -> Decoded<CieFields> {
    match dec_length(r.reset_to(at)) {
        Decoded::Entry((length, r2)) => match bounded_to_record(r2, length) {
            None => Decoded::Undefined,
            Some((r3, new_end)) => match dec_fixed(r3, 4) {
                Decoded::Entry((id, r4)) => match dec_fixed(r4, 1) {
                    Decoded::Entry((ver, r5)) => if ver as u8 != CIE_VERSION {
                        Decoded::Rejected
                    } else {
                        match dec_augmentation(r5, seq![]) {
                            Decoded::Entry((aug, r6)) => dec_cie_tail(r6, new_end, id as u32, aug),
                            Decoded::Rejected => Decoded::Rejected,
                            Decoded::Undefined => Decoded::Undefined,
                        }
                    },
                    Decoded::Rejected => Decoded::Rejected,
                    Decoded::Undefined => Decoded::Undefined,
                },
                Decoded::Rejected => Decoded::Rejected,
                Decoded::Undefined => Decoded::Undefined,
            },
        },
        Decoded::Rejected => Decoded::Rejected,
        Decoded::Undefined => Decoded::Undefined,
    }
}

/// Read a length field.
fn read_length<T: Peeker>(reader: &mut DwarfReader<T>) -> (r: Option<u64>)
    requires
        !(dec_length(*old(reader)) is Undefined),
    ensures
        final(reader).spec_peeker() == old(reader).spec_peeker(),
        match dec_length(*old(reader)) {
            Decoded::Entry((l, r2)) => r == Some(l) && *final(reader) == r2,
            Decoded::Rejected => r is None,
            Decoded::Undefined => false,
        },
{
    let ghost r0 = *reader;
    let l32 = match reader.read_u32() {
        Some(v) => v,
        None => return None,
    };
    proof {
        r0.lemma_advanced(4);
        DwarfReader::lemma_same_state(*reader, r0.advanced(4));
    }
    if l32 == 0xffff_ffffu32 {
        let ghost r1 = *reader;
        let l64 = match reader.read_u64() {
            Some(v) => v,
            None => return None,
        };
        proof {
            r1.lemma_advanced(8);
            DwarfReader::lemma_same_state(*reader, r1.advanced(8));
        }
        Some(l64)
    } else {
        Some(l32 as u64)
    }
}

/// Bound the reader to the record whose length it just read; give the
/// record's end relative to the start.
fn bound_to_record<T: Peeker>(reader: &mut DwarfReader<T>, length: u64) -> (r: usize)
    requires
        bounded_to_record(*old(reader), length) is Some,
    ensures
        final(reader).spec_peeker() == old(reader).spec_peeker(),
        bounded_to_record(*old(reader), length) == Some((*final(reader), r)),
{
    let ghost r0 = *reader;
    let new_end = reader.position() + length as usize;
    reader.set_end(new_end);
    proof {
        r0.lemma_reset_to(0, (r0.spec_start() + new_end) as usize);
        if r0.spec_end() >= r0.spec_start() + new_end {
            DwarfReader::lemma_same_state(*reader, r0.with_end((r0.spec_start() + new_end) as usize));
        } else {
            DwarfReader::lemma_same_state(*reader, r0);
        }
    }
    new_end
}

/// Read the instructions that fill the record up to `new_end`.
fn read_instructions<T: Peeker>(reader: &DwarfReader<T>, new_end: usize) -> (r: Option<Operations>)
    requires
        !(dec_instructions(*reader, new_end) is Undefined),
    ensures
        match dec_instructions(*reader, new_end) {
            Decoded::Entry(ins) => r is Some && r->0.ops@ == ins,
            Decoded::Rejected => r is None,
            Decoded::Undefined => false,
        },
{
    let n = new_end - reader.position();
    match reader.peek_bytes(n) {
        Some(ins) => Some(Operations::new(ins)),
        None => None,
    }
}

impl CommonInformationEntryPointer {
    /// Parse the common information entry at `at` through `reader` (which
    /// is left somewhere inside the record).
    fn parse_at<T: Peeker>(reader: &mut DwarfReader<T>, at: usize) -> (r: Option<CommonInformationEntry>)
        requires
            !(dec_cie(*old(reader), at) is Undefined),
        ensures
            final(reader).spec_peeker() == old(reader).spec_peeker(),
            match dec_cie(*old(reader), at) {
                Decoded::Entry(f) => r is Some && cie_fields(&r->0) == f,
                Decoded::Rejected => r is None,
                Decoded::Undefined => false,
            },
    {
        let ghost orig = *old(reader);
        reader.reset(at);
        proof {
            orig.lemma_reset_to(at, 0);
            DwarfReader::lemma_same_state(*reader, orig.reset_to(at));
        }
        let length = match read_length(reader) {
            Some(l) => l,
            None => return None,
        };
        let new_end = bound_to_record(reader, length);
        let ghost r3 = *reader;
        let cie_id = match reader.read_u32() {
            Some(v) => v,
            None => return None,
        };
        proof {
            r3.lemma_advanced(4);
            DwarfReader::lemma_same_state(*reader, r3.advanced(4));
        }
        let ghost r4 = *reader;
        let version = match reader.read_u8() {
            Some(v) => v,
            None => return None,
        };
        proof {
            r4.lemma_advanced(1);
            DwarfReader::lemma_same_state(*reader, r4.advanced(1));
        }
        if version != CIE_VERSION {
            return None;
        }
        let aug = match read_augmentation(reader) {
            Some(a) => a,
            None => return None,
        };
        let ghost r6 = *reader;
        let code_align_factor = match reader.read_uleb128() {
            Some(v) => v,
            None => return None,
        };
        proof {
            let s = r6.next_leb()->0;
            r6.lemma_advanced(s.len() as int);
            DwarfReader::lemma_same_state(*reader, r6.advanced(s.len() as int));
        }
        let ghost r7 = *reader;
        let data_align_factor = match reader.read_sleb128() {
            Some(v) => v,
            None => return None,
        };
        proof {
            let s = r7.next_leb()->0;
            r7.lemma_advanced(s.len() as int);
            DwarfReader::lemma_same_state(*reader, r7.advanced(s.len() as int));
        }
        let ghost r8 = *reader;
        let ret_addr_column = match reader.read_u8() {
            Some(v) => v,
            None => return None,
        };
        proof {
            r8.lemma_advanced(1);
            DwarfReader::lemma_same_state(*reader, r8.advanced(1));
        }
        let (lsda_encoding, personality, fde_encoding) = if aug.len() > 0 && aug[0] == 0x7a {
            let ghost r9 = *reader;
            let alen = match reader.read_uleb128() {
                Some(v) => v,
                None => return None,
            };
            proof {
                let s = r9.next_leb()->0;
                r9.lemma_advanced(s.len() as int);
                DwarfReader::lemma_same_state(*reader, r9.advanced(s.len() as int));
            }
            let max_offset = reader.position() + alen;
            match read_augmentation_data(reader, &aug, max_offset) {
                Some(st) => st,
                None => return None,
            }
        } else {
            (None, None, None)
        };
        let initial_instructions = match read_instructions(reader, new_end) {
            Some(ops) => ops,
            None => return None,
        };
        Some(CommonInformationEntry {
            cie_id,
            code_align_factor,
            data_align_factor,
            ret_addr_column,
            initial_instructions,
            lsda_encoding,
            fde_encoding,
            personality,
        })
    }

    /// Parse the common information entry this points at, reading through
    /// `reader`'s bytes.
    pub fn parse<T: Peeker>(&self, reader: DwarfReader<T>) -> (r: Option<CommonInformationEntry>)
        requires
            !(dec_cie(reader, self.0) is Undefined),
        ensures
            match dec_cie(reader, self.0) {
                Decoded::Entry(f) => r is Some && cie_fields(&r->0) == f,
                Decoded::Rejected => r is None,
                Decoded::Undefined => false,
            },
    {
        let mut reader = reader;
        Self::parse_at(&mut reader, self.0)
    }
}

/// A value in encoding `e` that the parser needs, and the reader after it.
pub open spec fn dec_encoded<T: Peeker>(r: DwarfReader<T>, e: Encoding) -> Decoded<(usize, DwarfReader<T>)> {
    if !r.can_read_encoded(e) {
        Decoded::Undefined
    } else {
        match r.encoded(e) {
            Some((v, n)) => Decoded::Entry(
                (vstd::wrapping::usize_specs::wrapping_add(r.encoding_base(e), v), r.advanced(n as int)),
            ),
            None => Decoded::Rejected,
        }
    }
}

/// The fields of a frame description entry: its CIE's fields, the start
/// and end of the code it covers, its language data, and its instructions.
pub type FdeFields = (CieFields, usize, usize, Option<usize>, Seq<u8>);

/// The fields of `fde`.
pub open spec fn fde_fields(fde: &FrameDescriptionEntry) -> FdeFields {
    (cie_fields(&fde.cie), fde.pc.start, fde.pc.end, fde.lsda, fde.instructions.ops@)
}

/// A frame description entry after its address range `pc_begin` and
/// `pc_len`, with CIE `cie`, up to `new_end`.
pub open spec fn dec_fde_tail<T: Peeker>(
    r: DwarfReader<T>,
    new_end: usize,
    cie: CieFields,
    pc_begin: usize,
    pc_len: usize,
) -> Decoded<FdeFields> {
    match dec_uleb(r) {
        Decoded::Entry((alen, r1)) => if alen + r1.spec_pos() > usize::MAX {
            Decoded::Undefined
        } else {
            let cfi_loc = alen + r1.spec_pos();
            let lsda = match cie.4 {
                Some(e) => match dec_opt_encoded(r1, e) {
                    Decoded::Entry((v, r2)) => Decoded::Entry((v, r2)),
                    Decoded::Rejected => Decoded::Rejected,
                    Decoded::Undefined => Decoded::Undefined,
                },
                None => Decoded::Entry((None, r1)),
            };
            match lsda {
                Decoded::Entry((l, r2)) => if r2.spec_pos() != cfi_loc {
                    Decoded::Rejected
                } else {
                    match dec_instructions(r2, new_end) {
                        Decoded::Entry(ins) => if pc_begin + pc_len > usize::MAX {
                            Decoded::Undefined
                        } else {
                            Decoded::Entry((cie, pc_begin, (pc_begin + pc_len) as usize, l, ins))
                        },
                        Decoded::Rejected => Decoded::Rejected,
                        Decoded::Undefined => Decoded::Undefined,
                    }
                },
                Decoded::Rejected => Decoded::Rejected,
                Decoded::Undefined => Decoded::Undefined,
            }
        },
        Decoded::Rejected => Decoded::Rejected,
        Decoded::Undefined => Decoded::Undefined,
    }
}

/// A frame description entry from its CIE pointer field on: the CIE that
/// field points back to (which must say how FDE pointers are encoded), the
/// address range, augmentation data, and instructions up to `new_end`.
pub open spec fn dec_fde_body<T: Peeker>(r: DwarfReader<T>, new_end: usize) -> Decoded<FdeFields> {
    if r.spec_start() + r.spec_pos() > usize::MAX {
        Decoded::Undefined
    } else {
        let cur = r.spec_start() + r.spec_pos();
        match dec_fixed(r, 4) {
            Decoded::Entry((off, r1)) => if (off as u32) as usize > cur {
                Decoded::Undefined
            } else {
                match dec_cie(r1, (cur - (off as u32) as usize) as usize) {
                    Decoded::Entry(cie) => match cie.5 {
                        None => Decoded::Rejected,
                        Some(e) => match dec_encoded(r1, e) {
                            Decoded::Entry((pc_begin, r2)) => match dec_encoded(
                                r2,
                                Encoding { format: e.format, application: Application::Absoulte },
                            ) {
                                Decoded::Entry((pc_len, r3)) => dec_fde_tail(r3, new_end, cie, pc_begin, pc_len),
                                Decoded::Rejected => Decoded::Rejected,
                                Decoded::Undefined => Decoded::Undefined,
                            },
                            Decoded::Rejected => Decoded::Rejected,
                            Decoded::Undefined => Decoded::Undefined,
                        },
                    },
                    Decoded::Rejected => Decoded::Rejected,
                    Decoded::Undefined => Decoded::Undefined,
                }
            },
            Decoded::Rejected => Decoded::Rejected,
            Decoded::Undefined => Decoded::Undefined,
        }
    }
}

/// The frame description entry at address `at`, read through the bytes
/// `r` sees.
pub open spec fn dec_fde<T: Peeker>(r: DwarfReader<T>, at: usize) -> Decoded<FdeFields> {
    match dec_length(r.reset_to(at)) {
        Decoded::Entry((length, r2)) => match bounded_to_record(r2, length) {
            None => Decoded::Undefined,
            Some((r3, new_end)) => dec_fde_body(r3, new_end),
        },
        Decoded::Rejected => Decoded::Rejected,
        Decoded::Undefined => Decoded::Undefined,
    }
}

/// Read a value in encoding `e` that the parser needs.
fn read_encoded<T: Peeker>(reader: &mut DwarfReader<T>, e: Encoding) -> (r: Option<usize>)
    requires
        !(dec_encoded(*old(reader), e) is Undefined),
    ensures
        final(reader).spec_peeker() == old(reader).spec_peeker(),
        match dec_encoded(*old(reader), e) {
            Decoded::Entry((v, r2)) => r == Some(v) && *final(reader) == r2,
            Decoded::Rejected => r is None,
            Decoded::Undefined => false,
        },
{
    let ghost r0 = *reader;
    let v = reader.read_with_encoding(e);
    proof {
        if let Some((_, n)) = r0.encoded(e) {
            r0.lemma_advanced(n as int);
            DwarfReader::lemma_same_state(*reader, r0.advanced(n as int));
        }
    }
    v
}

impl FrameDescriptionEntryPointer {
    /// Parse the frame description entry this points at, and the common
    /// information entry it refers to, reading through `reader`'s bytes.
    pub fn parse<T: Peeker>(&self, reader: DwarfReader<T>) -> (r: Option<FrameDescriptionEntry>)
        requires
            !(dec_fde(reader, self.0) is Undefined),
        ensures
            match dec_fde(reader, self.0) {
                Decoded::Entry(f) => r is Some && fde_fields(&r->0) == f,
                Decoded::Rejected => r is None,
                Decoded::Undefined => false,
            },
    {
        let mut reader = reader;
        self.parse_in(&mut reader)
    }

    /// Parse the frame description entry this points at through `reader`
    /// (which is left somewhere inside the record).
    pub fn parse_in<T: Peeker>(&self, reader: &mut DwarfReader<T>) -> (r: Option<FrameDescriptionEntry>)
        requires
            !(dec_fde(*old(reader), self.0) is Undefined),
        ensures
            final(reader).spec_peeker() == old(reader).spec_peeker(),
            match dec_fde(*old(reader), self.0) {
                Decoded::Entry(f) => r is Some && fde_fields(&r->0) == f,
                Decoded::Rejected => r is None,
                Decoded::Undefined => false,
            },
    {
        let ghost orig = *reader;
        reader.reset(self.0);
        proof {
            orig.lemma_reset_to(self.0, 0);
            DwarfReader::lemma_same_state(*reader, orig.reset_to(self.0));
        }
        let length = match read_length(reader) {
            Some(l) => l,
            None => return None,
        };
        let new_end = bound_to_record(reader, length);
        let cur = reader.current();
        let ghost r3 = *reader;
        let off = match reader.read_u32() {
            Some(v) => v,
            None => return None,
        };
        proof {
            r3.lemma_advanced(4);
            DwarfReader::lemma_same_state(*reader, r3.advanced(4));
        }
        let ghost r1 = *reader;
        let cie_ptr = cur - off as usize;
        let saved = reader.snapshot();
        let cie = match CommonInformationEntryPointer::parse_at(reader, cie_ptr) {
            Some(c) => c,
            None => return None,
        };
        reader.restore(saved);
        proof {
            DwarfReader::lemma_same_state(*reader, r1);
        }
        let encoding = match cie.fde_encoding {
            Some(e) => e,
            None => return None,
        };
        let pc_begin = match read_encoded(reader, encoding) {
            Some(v) => v,
            None => return None,
        };
        let pc_len = match read_encoded(
            reader,
            Encoding { format: encoding.format, application: Application::Absoulte },
        ) {
            Some(v) => v,
            None => return None,
        };
        let ghost r4 = *reader;
        let augmentation_length = match reader.read_uleb128() {
            Some(v) => v,
            None => return None,
        };
        proof {
            let s = r4.next_leb()->0;
            r4.lemma_advanced(s.len() as int);
            DwarfReader::lemma_same_state(*reader, r4.advanced(s.len() as int));
        }
        let cfi_loc = augmentation_length + reader.position();
        let ghost r5 = *reader;
        let lsda = match cie.lsda_encoding {
            Some(e) => {
                let v = reader.read_with_encoding(e);
                proof {
                    r5.lemma_advanced(r5.encoded_advance(e) as int);
                    DwarfReader::lemma_same_state(*reader, r5.advanced(r5.encoded_advance(e) as int));
                }
                v
            },
            None => None,
        };
        if reader.position() == cfi_loc {
            let instructions = match read_instructions(reader, new_end) {
                Some(ops) => ops,
                None => return None,
            };
            Some(FrameDescriptionEntry { cie, pc: pc_begin..pc_begin + pc_len, lsda, instructions })
        } else {
            None
        }
    }
}

} // verus!
