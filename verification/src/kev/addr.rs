//! Guest virtual and guest physical addresses.
use vstd::prelude::*;
use crate::addressing::{is_canonical, PA_LIMIT, VA_CANONICAL_MASK};

verus! {

/// Guest virtual address.
#[derive(Copy, Clone, Debug, PartialEq, Eq, Structural)]
pub struct Gva(usize);

impl Gva {
    /// The numeric value.
    pub closed spec fn value(self) -> usize {
        self.0
    }

    /// A guest virtual address, if `addr` is canonical.
    pub fn new(addr: usize) -> (r: Option<Gva>)
        ensures
            r is Some <==> is_canonical(addr),
            r is Some ==> r->0.value() == addr,
    {
        let m = (addr as u64) & VA_CANONICAL_MASK;
        if m == VA_CANONICAL_MASK || m == 0 {
            Some(Gva(addr))
        } else {
            None
        }
    }

    /// The numeric value.
    pub fn into_usize(self) -> (r: usize)
        ensures
            r == self.value(),
    {
        self.0
    }
}

/// Guest physical address.
#[derive(Copy, Clone, Debug, PartialEq, Eq, Structural)]
pub struct Gpa(usize);

impl Gpa {
    /// The numeric value.
    pub closed spec fn value(self) -> usize {
        self.0
    }

    /// The address whose value is `v`.
    pub closed spec fn from_value(v: usize) -> Gpa {
        Gpa(v)
    }

    /// A guest physical address, if `addr` is below the physical limit.
    pub fn new(addr: usize) -> (r: Option<Gpa>)
        ensures
            r is Some <==> addr < PA_LIMIT,
            r is Some ==> r->0 == Gpa::from_value(addr) && r->0.value() == addr,
    {
        if (addr as u64) < PA_LIMIT {
            Some(Gpa(addr))
        } else {
            None
        }
    }

    /// The numeric value.
    pub fn into_usize(self) -> (r: usize)
        ensures
            r == self.value(),
    {
        self.0
    }
}

} // verus!
