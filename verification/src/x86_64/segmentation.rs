//! Segmentation: segment descriptors and selectors.
use vstd::prelude::*;
use super::PrivilegeLevel;

verus! {

/// Granularity.
pub const SEG_G: u64 = 0x80_0000_0000_0000;
/// Default operation size (0 = 16-bit segment; 1 = 32-bit segment).
pub const SEG_D_B: u64 = 0x40_0000_0000_0000;
/// 64-bit code segment (IA-32e mode only).
pub const SEG_L: u64 = 0x20_0000_0000_0000;
/// Available for use by system software.
pub const SEG_AVL: u64 = 0x10_0000_0000_0000;
/// Segment present.
pub const SEG_P: u64 = 0x8000_0000_0000;
/// Descriptor type (0 = system; 1 = code or data).
pub const SEG_S: u64 = 0x1000_0000_0000;
/// Code segment.
pub const SEG_CODE: u64 = 0x800_0000_0000;
/// Expand-down / conforming.
pub const SEG_EC: u64 = 0x400_0000_0000;
/// Writable / readable.
pub const SEG_WR: u64 = 0x200_0000_0000;
/// Accessed.
pub const SEG_A: u64 = 0x100_0000_0000;
/// Every access bit of a segment descriptor.
pub const SEG_ACCESS_ALL: u64 = 0xf0_9f00_0000_0000;

/// Available 64-bit TSS.
pub const SEG64_T64A: u64 = 0x900_0000_0000;
/// Busy 64-bit TSS.
pub const SEG64_T64B: u64 = 0xb00_0000_0000;
/// 64-bit call gate.
pub const SEG64_CG64: u64 = 0xc00_0000_0000;
/// 64-bit interrupt gate.
pub const SEG64_IG64: u64 = 0xe00_0000_0000;
/// 64-bit trap gate.
pub const SEG64_TG64: u64 = 0xf00_0000_0000;
/// Every access bit of a 64-bit system descriptor.
pub const SEG64_ACCESS_ALL: u64 = 0x90_8f00_0000_0000;

/// Access permissions of a segment.
#[derive(Copy, Clone, Debug, PartialEq, Eq, Structural)]
pub struct SegmentAccess(pub u64);

impl SegmentAccess {
    /// No permission bit.
    pub fn empty() -> (r: SegmentAccess)
        ensures
            r.0 == 0,
    {
        SegmentAccess(0)
    }

    /// Keep only the defined access bits of `bits`.
    pub fn from_bits_truncate(bits: u64) -> (r: SegmentAccess)
        ensures
            r.0 == bits & SEG_ACCESS_ALL,
    {
        SegmentAccess(bits & SEG_ACCESS_ALL)
    }
}

/// Access permissions of a 64-bit system segment.
#[derive(Copy, Clone, Debug, PartialEq, Eq, Structural)]
pub struct SegmentAccess64(pub u64);

impl SegmentAccess64 {
    /// No permission bit.
    pub fn empty() -> (r: SegmentAccess64)
        ensures
            r.0 == 0,
    {
        SegmentAccess64(0)
    }

    /// Keep only the defined access bits of `bits`.
    pub fn from_bits_truncate(bits: u64) -> (r: SegmentAccess64)
        ensures
            r.0 == bits & SEG64_ACCESS_ALL,
    {
        SegmentAccess64(bits & SEG64_ACCESS_ALL)
    }
}

/// The low word of a descriptor: limit, base bits 0..32, access and dpl.
pub open spec fn descriptor_low(base: u64, limit: u64, access: u64, dpl: u64) -> u64 {
    (limit & 0xffff) | ((base & 0xff_ffff) << 16u64) | access | (dpl << 45u64) | (((limit >> 16u64)
        & 0xf) << 48u64) | (((base >> 24u64) & 0xff) << 56u64)
}

/// The base address that a descriptor's low word encodes.
pub open spec fn descriptor_base(low: u64) -> u64 {
    ((low >> 16u64) & 0xff_ffff) | ((low >> 56u64) << 24u64)
}

/// The limit that a descriptor's low word encodes.
pub open spec fn descriptor_limit(low: u64) -> u64 {
    (low & 0xffff) | (((low >> 48u64) & 0xf) << 16u64)
}

/// The descriptor privilege level that a descriptor's low word encodes.
pub open spec fn descriptor_dpl(low: u64) -> u64 {
    (low >> 45u64) & 3
}

/// X86_64's segment descriptor.
#[derive(Copy, Clone, Debug, PartialEq, Eq, Structural)]
pub struct SegmentDescriptor(pub u64);

impl SegmentDescriptor {
    /// Create a null segment.
    pub fn null() -> (r: SegmentDescriptor)
        ensures
            r.0 == 0,
    {
        let r = Self::new(0, 0, SegmentAccess::empty(), PrivilegeLevel::Ring0);
        assert(descriptor_low(0, 0, 0, 0) == 0) by (bit_vector);
        r
    }

    /// Create a new segment.
    pub fn new(base: u64, limit: u64, access: SegmentAccess, dpl: PrivilegeLevel) -> (r:
        SegmentDescriptor)
        ensures
            r.0 == descriptor_low(base, limit, access.0, dpl.level() as u64),
    {
        let d = dpl.as_u16() as u64;
        SegmentDescriptor(
            (limit & 0xffff) | ((base & 0xff_ffff) << 16u64) | access.0 | (d << 45u64) | (((limit
                >> 16u64) & 0xf) << 48u64) | (((base >> 24u64) & 0xff) << 56u64),
        )
    }
}

/// X86_64's 64-bit system segment descriptor (two words).
#[derive(Copy, Clone, Debug, PartialEq, Eq, Structural)]
pub struct SegmentDescriptor64(pub u64, pub u64);

impl SegmentDescriptor64 {
    /// Create a null segment.
    pub fn null() -> (r: SegmentDescriptor64)
        ensures
            r.0 == 0,
            r.1 == 0,
    {
        let r = Self::new(0, 0, SegmentAccess64::empty(), PrivilegeLevel::Ring0);
        assert(descriptor_low(0, 0, 0, 0) == 0 && (0u64 >> 32u64) & 0xffff_ffff == 0) by (bit_vector);
        r
    }

    /// Create a new segment.
    pub fn new(base: u64, limit: u64, access: SegmentAccess64, dpl: PrivilegeLevel) -> (r:
        SegmentDescriptor64)
        ensures
            r.0 == descriptor_low(base, limit, access.0, dpl.level() as u64),
            r.1 == (base >> 32u64) & 0xffff_ffff,
    {
        let d = dpl.as_u16() as u64;
        SegmentDescriptor64(
            (limit & 0xffff) | ((base & 0xff_ffff) << 16u64) | access.0 | (d << 45u64) | (((limit
                >> 16u64) & 0xf) << 48u64) | (((base >> 24u64) & 0xff) << 56u64),
            (base >> 32u64) & 0xffff_ffff,
        )
    }
}

/// A descriptor's base (low 32 bits), limit and dpl read back as given,
/// when the access bits lie outside those fields.
pub proof fn lemma_descriptor_round_trip(base: u64, limit: u64, access: u64, dpl: u64)
    requires
        base < 0x1_0000_0000,
        limit < 0x10_0000,
        dpl < 4,
        access & !SEG_ACCESS_ALL == 0,
    ensures
        descriptor_base(descriptor_low(base, limit, access, dpl)) == base,
        descriptor_limit(descriptor_low(base, limit, access, dpl)) == limit,
        descriptor_dpl(descriptor_low(base, limit, access, dpl)) == dpl,
{
    assert(descriptor_base(descriptor_low(base, limit, access, dpl)) == base) by (bit_vector)
        requires
            base < 0x1_0000_0000,
            limit < 0x10_0000,
            dpl < 4,
            access & !0xf0_9f00_0000_0000u64 == 0,
    ;
    assert(descriptor_limit(descriptor_low(base, limit, access, dpl)) == limit) by (bit_vector)
        requires
            base < 0x1_0000_0000,
            limit < 0x10_0000,
            dpl < 4,
            access & !0xf0_9f00_0000_0000u64 == 0,
    ;
    assert(descriptor_dpl(descriptor_low(base, limit, access, dpl)) == dpl) by (bit_vector)
        requires
            base < 0x1_0000_0000,
            limit < 0x10_0000,
            dpl < 4,
            access & !0xf0_9f00_0000_0000u64 == 0,
    ;
}

/// X86_64's segment selector.
#[derive(Copy, Clone, Debug, PartialEq, Eq, Structural)]
pub struct SegmentSelector(pub u16);

impl SegmentSelector {
    /// Create a new selector from the index and dpl.
    pub fn new(index: u16, dpl: PrivilegeLevel) -> (r: SegmentSelector)
        ensures
            r.0 == selector_bits(index, dpl.level()),
    {
        SegmentSelector((index << 3u16) | dpl.as_u16())
    }

    /// Pack the selector into a word.
    pub fn pack(self) -> (r: u16)
        ensures
            r == self.0,
    {
        self.0
    }

    /// Index of the selector.
    pub fn index(self) -> (r: u16)
        ensures
            r == self.0 >> 3u16,
    {
        self.0 >> 3u16
    }

    /// Requested privilege level of the selector.
    pub fn dpl(self) -> (r: PrivilegeLevel)
        ensures
            r.level() == self.0 & 3,
    {
        PrivilegeLevel::from_low_bits(self.0)
    }
}

/// A selector built from an index below 8192 gives back that index and level.
pub proof fn lemma_selector_round_trip(index: u16, dpl: PrivilegeLevel)
    requires
        index < 0x2000,
    ensures
        ((index << 3u16) | dpl.level()) >> 3u16 == index,
        ((index << 3u16) | dpl.level()) & 3 == dpl.level(),
{
    let l = dpl.level();
    assert(((index << 3u16) | l) >> 3u16 == index && ((index << 3u16) | l) & 3 == l) by (bit_vector)
        requires
            index < 0x2000,
            l < 4,
    ;
}

/// Segment registers.
#[derive(Copy, Clone, Debug, PartialEq, Eq, Structural)]
pub enum SegmentRegister {
    /// Code segment.
    Cs,
    /// Data segment.
    Ds,
    /// Stack segment.
    Ss,
    /// Extra segment.
    Es,
    /// Extra segment (E -> F).
    Fs,
    /// Extra segment (F -> G).
    Gs,
    /// Task-state segment.
    Tss,
}

/// Kinds of segment.
#[derive(Copy, Clone, Debug, PartialEq, Eq, Structural)]
pub enum Segment {
    /// Null segment.
    Null,
    /// Kernel code segment.
    KernelCode,
    /// Kernel data segment.
    KernelData,
    /// User data segment.
    UserData,
    /// User code segment.
    UserCode,
    /// Task-state segment of the running core.
    Tss,
}

/// The word of a selector with index `index` and requested level `rpl`.
pub open spec fn selector_bits(index: u16, rpl: u16) -> u16 {
    (index << 3u16) | rpl
}

/// The selector of a segment on core `cpuid`.
pub open spec fn segment_selector(seg: Segment, cpuid: usize) -> u16 {
    match seg {
        Segment::Null => selector_bits(0, 3),
        Segment::KernelCode => selector_bits(1, 0),
        Segment::KernelData => selector_bits(2, 0),
        Segment::UserData => selector_bits(3, 3),
        Segment::UserCode => selector_bits(4, 3),
        Segment::Tss => selector_bits((5 + 2 * (cpuid as u16)) as u16, 0),
    }
}

impl Segment {
    /// Selector of this segment, for core `cpuid` (only the task-state
    /// segment depends on the core).
    pub fn into_selector(self, cpuid: usize) -> (r: SegmentSelector)
        requires
            self == Segment::Tss ==> 5 + 2 * (cpuid as u16) <= u16::MAX,
        ensures
            r.0 == segment_selector(self, cpuid),
    {
        match self {
            Segment::Null => SegmentSelector::new(0, PrivilegeLevel::Ring3),
            Segment::KernelCode => SegmentSelector::new(1, PrivilegeLevel::Ring0),
            Segment::KernelData => SegmentSelector::new(2, PrivilegeLevel::Ring0),
            Segment::UserData => SegmentSelector::new(3, PrivilegeLevel::Ring3),
            Segment::UserCode => SegmentSelector::new(4, PrivilegeLevel::Ring3),
            Segment::Tss => SegmentSelector::new(5 + 2 * (cpuid as u16), PrivilegeLevel::Ring0),
        }
    }
}

/// Number of cores for which the segment table holds a task-state segment.
pub const MAX_CPU: usize = 4;

/// The table of segment descriptors.
pub struct SegmentTable {
    pub null: SegmentDescriptor,
    pub kernel_code: SegmentDescriptor,
    pub kernel_data: SegmentDescriptor,
    pub user_data: SegmentDescriptor,
    pub user_code: SegmentDescriptor,
    pub tss: Vec<SegmentDescriptor64>,
}

} // verus!
