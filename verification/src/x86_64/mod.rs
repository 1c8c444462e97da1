//! x86_64 architectural structures: privilege levels, flags registers,
//! segmentation, interrupt gates, descriptor tables and the task-state
//! segment.
use vstd::prelude::*;

pub mod interrupt;
pub mod pio;
pub mod segmentation;
pub mod table;
pub mod tss;

verus! {

/// Privilege levels.
#[derive(Copy, Clone, Debug, PartialEq, Eq, Structural)]
pub enum PrivilegeLevel {
    Ring0,
    Ring1,
    Ring2,
    Ring3,
}

impl PrivilegeLevel {
    /// The numeric ring of this level.
    pub open spec fn level(self) -> u16 {
        match self {
            PrivilegeLevel::Ring0 => 0,
            PrivilegeLevel::Ring1 => 1,
            PrivilegeLevel::Ring2 => 2,
            PrivilegeLevel::Ring3 => 3,
        }
    }

    /// The numeric ring of this level.
    pub fn as_u16(self) -> (r: u16)
        ensures
            r == self.level(),
            r < 4,
    {
        match self {
            PrivilegeLevel::Ring0 => 0,
            PrivilegeLevel::Ring1 => 1,
            PrivilegeLevel::Ring2 => 2,
            PrivilegeLevel::Ring3 => 3,
        }
    }

    /// The level whose ring is the two low bits of `v`.
    pub fn from_low_bits(v: u16) -> (r: PrivilegeLevel)
        ensures
            r.level() == v & 3,
    {
        let b = v & 3;
        assert(b < 4) by (bit_vector)
            requires
                b == v & 3,
        ;
        if b == 0 {
            PrivilegeLevel::Ring0
        } else if b == 1 {
            PrivilegeLevel::Ring1
        } else if b == 2 {
            PrivilegeLevel::Ring2
        } else {
            PrivilegeLevel::Ring3
        }
    }
}

/// Carry flag.
pub const RFLAGS_CF: u64 = 0x1;
/// Reserved bit that must be one.
pub const RFLAGS_ONE: u64 = 0x2;
/// Interrupt enable flag.
pub const RFLAGS_IF: u64 = 0x200;
/// I/O privilege level, bit 0.
pub const RFLAGS_IOPL0: u64 = 0x1000;
/// I/O privilege level, bit 1.
pub const RFLAGS_IOPL1: u64 = 0x2000;
/// Virtual-8086 mode.
pub const RFLAGS_VM: u64 = 0x2_0000;
/// Virtual interrupt flag.
pub const RFLAGS_VIF: u64 = 0x8_0000;
/// Virtual interrupt pending.
pub const RFLAGS_VIP: u64 = 0x10_0000;
/// Every bit that names a defined flag of rflags.
pub const RFLAGS_ALL: u64 = 0x3f_7fd7;

/// The rflags register.
#[derive(Copy, Clone, Debug, PartialEq, Eq, Structural)]
pub struct Rflags(pub u64);

impl Rflags {
    /// Keep only the bits that name a defined flag.
    pub fn from_bits_truncate(bits: u64) -> (r: Rflags)
        ensures
            r.0 == bits & RFLAGS_ALL,
    {
        Rflags(bits & RFLAGS_ALL)
    }

    /// The raw bits.
    pub fn bits(self) -> (r: u64)
        ensures
            r == self.0,
    {
        self.0
    }

    /// Whether every bit of `flags` is set.
    pub fn contains(self, flags: u64) -> (r: bool)
        ensures
            r == (self.0 & flags == flags),
    {
        self.0 & flags == flags
    }
}

} // verus!
