//! Memory-mapped I/O areas.
use vstd::prelude::*;
use core::ops::Range;
use crate::addressing::{Pa, Va, VA_TO_PA_OFF};

verus! {

/// A register at address `0` of width `T`, readable if `R`, writable if `W`.
#[derive(Copy, Clone, Debug)]
pub struct MmioAccessor {
    pub addr: usize,
    pub readable: bool,
    pub writable: bool,
}

/// An array of registers: base address, stride and element count.
#[derive(Copy, Clone, Debug)]
pub struct MmioArrayAccessor {
    pub addr: usize,
    pub stride: usize,
    pub count: usize,
}

/// A physical memory-mapped area.
#[derive(Debug)]
pub struct MmioArea(pub Range<Pa>);

/// A memory-mapped area at its kernel virtual addresses.
#[derive(Debug)]
pub struct ActiveMmioArea(pub Range<Va>);

impl MmioArea {
    /// The area covering `n`.
    pub fn new(n: Range<Pa>) -> (r: MmioArea)
        ensures
            r.0 == n,
    {
        MmioArea(n)
    }

    /// Size in bytes.
    pub fn size(&self) -> (r: usize)
        requires
            self.0.start.value() <= self.0.end.value(),
        ensures
            r == self.0.end.value() - self.0.start.value(),
    {
        self.0.end.into_usize() - self.0.start.into_usize()
    }

    /// The area at its kernel virtual addresses.
    pub fn activate(self) -> (r: ActiveMmioArea)
        requires
            self.0.start.value() + VA_TO_PA_OFF <= usize::MAX,
            self.0.end.value() + VA_TO_PA_OFF <= usize::MAX,
        ensures
            r.0.start.value() == self.0.start.value() + VA_TO_PA_OFF,
            r.0.end.value() == self.0.end.value() + VA_TO_PA_OFF,
    {
        let Range { start, end } = self.0;
        ActiveMmioArea(Range { start: start.into_va(), end: end.into_va() })
    }

    /// Split the area at `mid` bytes from its start.
    pub fn split_at(self, mid: usize) -> (r: (MmioArea, MmioArea))
        requires
            self.0.start.value() <= self.0.end.value(),
            mid <= self.0.end.value() - self.0.start.value(),
        ensures
            r.0.0.start == self.0.start,
            r.0.0.end.value() == self.0.start.value() + mid,
            r.1.0.start == r.0.0.end,
            r.1.0.end == self.0.end,
    {
        let Range { start, end } = self.0;
        let m = start.add(mid);
        (MmioArea(Range { start, end: m }), MmioArea(Range { start: m, end }))
    }
}

impl ActiveMmioArea {
    /// Start and end addresses.
    pub fn start_end(&self) -> (r: (usize, usize))
        ensures
            r.0 == self.0.start.value(),
            r.1 == self.0.end.value(),
    {
        (self.0.start.into_usize(), self.0.end.into_usize())
    }
}

} // verus!
