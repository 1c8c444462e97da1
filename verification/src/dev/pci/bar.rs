//! Base address registers.
use vstd::prelude::*;
use core::ops::Range;
use crate::addressing::Pa;
use crate::dev::mmio::MmioArea;
use crate::x86_64::pio::Pio;

verus! {

/// A port-mapped I/O window.
#[derive(Copy, Clone, Debug, PartialEq, Eq, Structural)]
pub struct IoSpace {
    pub base: u32,
    pub length: u32,
}

impl IoSpace {
    /// The port at `idx` bytes into the window, when a dword there lies
    /// within it.
    pub fn offset(&self, idx: u32) -> (r: Option<Pio>)
        requires
            self.length < u32::MAX,
            idx + 4 <= u32::MAX && idx + 4 <= self.length + 1 ==> self.base + idx <= u32::MAX,
        ensures
            r is Some <==> idx + 4 <= u32::MAX && idx + 4 <= self.length + 1,
            r is Some ==> (r->0).0 == (self.base + idx) as u16,
    {
        match idx.checked_add(4) {
            Some(i) => {
                if i <= self.length + 1 {
                    Some(Pio::new((self.base + idx) as u16))
                } else {
                    None
                }
            },
            None => None,
        }
    }
}

/// A memory-mapped window.
#[derive(Copy, Clone, Debug, PartialEq, Eq, Structural)]
pub struct MemorySpace {
    pub base: Pa,
    pub length: usize,
    pub prefetchable: bool,
}

impl MemorySpace {
    /// The whole window.
    pub fn all(&self) -> (r: MmioArea)
        requires
            self.base.value() + self.length <= usize::MAX,
        ensures
            r.0.start == self.base,
            r.0.end.value() == self.base.value() + self.length,
    {
        MmioArea::new(Range { start: self.base, end: self.base.add(self.length) })
    }

    /// The part of the window from `offset` for `length` bytes, when it
    /// starts inside the window and does not leave it.
    pub fn try_split_mmio_range(&self, offset: usize, length: usize) -> (r: Option<MmioArea>)
        requires
            self.base.value() + self.length <= usize::MAX,
        ensures
            r is Some <==> offset < self.length && offset + length <= self.length,
            r is Some ==> (r->0).0.start.value() == self.base.value() + offset
                && (r->0).0.end.value() == self.base.value() + offset + length,
    {
        let fits = match offset.checked_add(length) {
            Some(limit) => limit <= self.length,
            None => false,
        };
        if offset < self.length && fits {
            let start = self.base.add(offset);
            Some(MmioArea::new(Range { start, end: start.add(length) }))
        } else {
            None
        }
    }
}

/// A decoded base address register.
#[derive(Copy, Clone, Debug, PartialEq, Eq, Structural)]
pub enum Bar {
    MemorySpace(MemorySpace),
    IoSpace(IoSpace),
}

impl Bar {
    /// The memory window, if this is one.
    pub fn try_get_memory_bar(self) -> (r: Option<MemorySpace>)
        ensures
            r is Some <==> self is MemorySpace,
            r is Some ==> self == Bar::MemorySpace(r->0),
    {
        match self {
            Bar::MemorySpace(m) => Some(m),
            Bar::IoSpace(_) => None,
        }
    }

    /// The I/O window, if this is one.
    pub fn try_get_io_bar(self) -> (r: Option<IoSpace>)
        ensures
            r is Some <==> self is IoSpace,
            r is Some ==> self == Bar::IoSpace(r->0),
    {
        match self {
            Bar::IoSpace(i) => Some(i),
            Bar::MemorySpace(_) => None,
        }
    }
}

} // verus!
