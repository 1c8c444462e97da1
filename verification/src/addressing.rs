//! Physical and kernel-virtual addresses.
//!
//! Kernel virtual memory maps physical memory linearly: the kernel virtual
//! address of a frame is its physical address plus a constant offset.
use vstd::prelude::*;

verus! {

/// Offset between a physical address and its kernel virtual alias.
pub const VA_TO_PA_OFF: u64 = 0xffff_ff00_0000_0000;

/// Page size.
pub const PAGE_SIZE: usize = 0x1000;
/// Shift amount to get page index.
pub const PAGE_SHIFT: usize = 12;
/// Mask for page offset.
pub const PAGE_MASK: usize = 0xfff;

/// Upper bound (exclusive) of a valid physical address.
pub const PA_LIMIT: u64 = 0xffff_0000_0000_0000;

/// Mask of the bits that must all be equal in a canonical virtual address.
pub const VA_CANONICAL_MASK: u64 = 0xffff_8000_0000_0000;

/// Whether `addr` is a canonical 48-bit virtual address.
pub open spec fn is_canonical(addr: usize) -> bool {
    ((addr as u64) & VA_CANONICAL_MASK) == VA_CANONICAL_MASK || ((addr as u64) & VA_CANONICAL_MASK) == 0
}

/// Physical address.
#[derive(Clone, Copy, Debug, PartialEq, Eq, Structural)]
pub struct Pa(usize);

impl Pa {
    /// The numeric value of this address.
    pub closed spec fn value(self) -> usize {
        self.0
    }

    /// The address whose numeric value is `v`.
    pub closed spec fn from_value(v: usize) -> Pa {
        Pa(v)
    }

    /// The address `n` bytes above this one.
    pub fn add(self, n: usize) -> (r: Pa)
        requires
            self.value() + n <= usize::MAX,
        ensures
            r.value() == self.value() + n,
    {
        Pa(self.0 + n)
    }

    /// The address `n` bytes below this one.
    pub fn sub(self, n: usize) -> (r: Pa)
        requires
            self.value() >= n,
        ensures
            r.value() == self.value() - n,
    {
        Pa(self.0 - n)
    }

    /// PA with address 0.
    pub fn zero() -> (r: Pa)
        ensures
            r.value() == 0,
    {
        Pa(0)
    }

    /// Create a new physical address with a check.
    pub fn new(addr: usize) -> (r: Option<Pa>)
        ensures
            addr < PA_LIMIT <==> r is Some,
            r is Some ==> r->0.value() == addr,
    {
        if (addr as u64) < PA_LIMIT {
            Some(Pa(addr))
        } else {
            None
        }
    }

    /// Cast into usize.
    pub fn into_usize(self) -> (r: usize)
        ensures
            r == self.value(),
    {
        self.0
    }

    /// Cast into virtual address.
    pub fn into_va(self) -> (r: Va)
        requires
            self.value() + VA_TO_PA_OFF <= usize::MAX,
        ensures
            r.value() == self.value() + VA_TO_PA_OFF,
    {
        Va(self.0 + VA_TO_PA_OFF as usize)
    }
}

/// Virtual address
#[derive(Clone, Copy, Debug, PartialEq, Eq, Structural)]
pub struct Va(usize);

impl Va {
    /// The numeric value of this address.
    pub closed spec fn value(self) -> usize {
        self.0
    }

    /// Create a new virtual address with a check.
    pub fn new(addr: usize) -> (r: Option<Va>)
        ensures
            is_canonical(addr) <==> r is Some,
            r is Some ==> r->0.value() == addr,
    {
        let m = (addr as u64) & VA_CANONICAL_MASK;
        if m == VA_CANONICAL_MASK || m == 0 {
            Some(Va(addr))
        } else {
            None
        }
    }

    /// Cast into usize.
    pub fn into_usize(self) -> (r: usize)
        ensures
            r == self.value(),
    {
        self.0
    }

    /// The address whose numeric value is `v`.
    pub closed spec fn from_value(v: usize) -> Va {
        Va(v)
    }

    /// The address `n` bytes above this one.
    pub fn add(self, n: usize) -> (r: Va)
        requires
            self.value() + n <= usize::MAX,
        ensures
            r.value() == self.value() + n,
    {
        Va(self.0 + n)
    }

    /// Cast into physical address.
    pub fn into_pa(self) -> (r: Pa)
        requires
            self.value() >= VA_TO_PA_OFF,
        ensures
            r.value() == self.value() - VA_TO_PA_OFF,
    {
        Pa(self.0 - VA_TO_PA_OFF as usize)
    }
}

/// An address built from a value has that value.
pub broadcast proof fn lemma_pa_from_value(v: usize)
    ensures
        #[trigger] Pa::from_value(v).value() == v,
{
}

/// An address is determined by its value.
pub broadcast proof fn lemma_pa_of_value(p: Pa)
    ensures
        #[trigger] Pa::from_value(p.value()) == p,
{
}

/// A virtual address built from a value has that value.
pub broadcast proof fn lemma_va_from_value(v: usize)
    ensures
        #[trigger] Va::from_value(v).value() == v,
{
}

/// A virtual address is determined by its value.
pub broadcast proof fn lemma_va_of_value(p: Va)
    ensures
        #[trigger] Va::from_value(p.value()) == p,
{
}

/// Facts about building addresses from values.
pub broadcast group group_pa_value {
    lemma_pa_from_value,
    lemma_pa_of_value,
    lemma_va_from_value,
    lemma_va_of_value,
}

/// A physical address and its kernel alias translate back to it.
pub proof fn lemma_pa_va_round_trip(pa: Pa)
    requires
        pa.value() + VA_TO_PA_OFF <= usize::MAX,
    ensures
        pa.value() + VA_TO_PA_OFF - VA_TO_PA_OFF == pa.value(),
{
}

} // verus!
