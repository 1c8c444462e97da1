//! A first-fit free-list allocator for small objects.
use vstd::prelude::*;

verus! {

/// Size in bytes of a free-list node.
pub const SLOB_NODE_SIZE: usize = 16;
/// Alignment of a free-list node.
pub const SLOB_NODE_ALIGN: usize = 8;

/// A free region: its start address and size.
#[derive(Copy, Clone, Debug, PartialEq, Eq, Structural)]
pub struct SlobNode {
    pub start: usize,
    pub size: usize,
}

impl SlobNode {
    /// Start address of the region.
    pub fn start_addr(&self) -> (r: usize)
        ensures
            r == self.start,
    {
        self.start
    }

    /// End address of the region.
    pub fn end_addr(&self) -> (r: usize)
        requires
            self.start + self.size <= usize::MAX,
        ensures
            r == self.start + self.size,
    {
        self.start + self.size
    }
}

/// Round `addr` up to a multiple of `align`.
pub open spec fn round_up(addr: int, align: int) -> int {
    ((addr + align - 1) as usize & !((align - 1) as usize)) as int
}

/// Where an allocation of `size` bytes aligned to `align` goes in `n`, if
/// it fits and what is left over is empty or can hold a node.
pub open spec fn fit_in(n: SlobNode, size: int, align: int) -> Option<int> {
    let s = round_up(n.start as int, align);
    let e = s + size;
    if e > usize::MAX || e > n.start + n.size {
        None
    } else if n.start + n.size - e > 0 && n.start + n.size - e < SLOB_NODE_SIZE {
        None
    } else {
        Some(s)
    }
}

/// A multiple of a power of two has its low bits clear, and the other way
/// round.
#[verifier::rlimit(100)]
proof fn lemma_mask_is_mod(x: u64, align: u64)
    by (bit_vector)
    requires
        align >= 1,
        align & ((align - 1) as u64) == 0,
        x & ((align - 1) as u64) == 0,
    ensures
        x % align == 0,
{
}

/// An allocation in a region is aligned as asked and lies in the region:
/// for a power-of-two `align`, the start found for `size` bytes is a multiple
/// of `align`, not before the region's start and less than `align` bytes
/// after it, and the allocation ends within the region.
pub proof fn lemma_fit_in_aligned(n: SlobNode, size: int, align: usize)
    requires
        align >= 1,
        align & ((align - 1) as usize) == 0,
        n.start + align - 1 <= usize::MAX,
        fit_in(n, size, align as int) is Some,
    ensures
        ({
            let s = fit_in(n, size, align as int)->0;
            &&& s % (align as int) == 0
            &&& n.start <= s < n.start + align
            &&& s + size <= n.start + n.size
        }),
{
    super::lemma_align_up(n.start, align);
    let s = ((n.start + align - 1) as usize & !((align - 1) as usize));
    lemma_mask_is_mod(s as u64, align as u64);
}

/// The first region of `free` where the allocation fits.
pub open spec fn first_region(free: Seq<SlobNode>, size: int, align: int) -> Option<int> {
    if exists|i: int| 0 <= i < free.len() && fit_in(free[i], size, align) is Some {
        Some(
            choose|i: int|
                0 <= i < free.len() && fit_in(free[i], size, align) is Some && forall|j: int|
                    0 <= j < i ==> fit_in(#[trigger] free[j], size, align) is None,
        )
    } else {
        None
    }
}

/// The free regions, most recently added first.
pub struct SlobAllocator {
    pub free: Vec<SlobNode>,
}

/// Whether every region ends within the address space and its start can
/// be rounded up to `align`.
pub open spec fn regions_ok(free: Seq<SlobNode>, align: int) -> bool {
    forall|i: int|
        0 <= i < free.len() ==> (#[trigger] free[i]).start + free[i].size <= usize::MAX
            && free[i].start + align <= usize::MAX
}

impl SlobAllocator {
    /// An allocator with no free region.
    pub fn new() -> (r: SlobAllocator)
        ensures
            r.free@ == Seq::<SlobNode>::empty(),
    {
        SlobAllocator { free: Vec::new() }
    }

    /// The size and alignment an allocation of a `size`-byte object aligned
    /// to `align` (a power of two) takes: the alignment is at least a
    /// node's, the size is rounded up to it and holds at least a node.
    pub fn align_to_slob_node(size: usize, align: usize) -> (r: (usize, usize))
        requires
            align >= 1,
            align & ((align - 1) as usize) == 0,
            size + align + SLOB_NODE_ALIGN <= isize::MAX,
        ensures
            r.1 == (if align < SLOB_NODE_ALIGN {
                SLOB_NODE_ALIGN
            } else {
                align
            }),
            r.0 == (if round_up(size as int, r.1 as int) < SLOB_NODE_SIZE {
                SLOB_NODE_SIZE as int
            } else {
                round_up(size as int, r.1 as int)
            }),
    {
        let a = if align < SLOB_NODE_ALIGN {
            SLOB_NODE_ALIGN
        } else {
            align
        };
        let padded = super::align_up(size, a);
        let s = if padded < SLOB_NODE_SIZE {
            SLOB_NODE_SIZE
        } else {
            padded
        };
        (s, a)
    }

    /// Add the region of `size` bytes at `addr` in front of the free list.
    pub fn add_free_region(&mut self, addr: usize, size: usize)
        requires
            addr % SLOB_NODE_ALIGN == 0,
            size >= SLOB_NODE_SIZE,
        ensures
            final(self).free@ == seq![SlobNode { start: addr, size }] + old(self).free@,
    {
        self.free.insert(0, SlobNode { start: addr, size });
        assert(self.free@ =~= seq![SlobNode { start: addr, size }] + old(self).free@);
    }

    /// Where an allocation of `size` bytes aligned to `align` goes in
    /// `region`: it must fit, and what is left must be empty or hold a node.
    pub fn alloc_from_region(region: &SlobNode, size: usize, align: usize) -> (r: Result<usize, ()>)
        requires
            align >= 1,
            region.start + region.size <= usize::MAX,
            region.start + align <= usize::MAX,
        ensures
            match fit_in(*region, size as int, align as int) {
                Some(s) => r == Ok::<usize, ()>(s as usize),
                None => r is Err,
            },
            align & ((align - 1) as usize) == 0 ==> (r matches Ok(s) ==> s % align == 0
                && region.start <= s && s + size <= region.start + region.size),
    {
        proof {
            if align & ((align - 1) as usize) == 0 && fit_in(*region, size as int, align as int) is Some {
                lemma_fit_in_aligned(*region, size as int, align);
            }
        }
        let alloc_start = super::align_up(region.start_addr(), align);
        let alloc_end = match alloc_start.checked_add(size) {
            Some(e) => e,
            None => {
                return Err(());
            },
        };
        if alloc_end > region.end_addr() {
            return Err(());
        }
        let excess_size = region.end_addr() - alloc_end;
        if excess_size > 0 && excess_size < SLOB_NODE_SIZE {
            return Err(());
        }
        Ok(alloc_start)
    }

    /// Take the first free region where an allocation of `size` bytes
    /// aligned to `align` fits, with the allocation's start.
    pub fn find_region(&mut self, size: usize, align: usize) -> (r: Option<(SlobNode, usize)>)
        requires
            align >= 1,
            regions_ok(old(self).free@, align as int),
        ensures
            match first_region(old(self).free@, size as int, align as int) {
                None => r is None && final(self).free@ == old(self).free@,
                Some(i) => r matches Some((n, s)) && n == old(self).free@[i] && Some(s as int)
                    == fit_in(n, size as int, align as int) && final(self).free@
                    == old(self).free@.remove(i),
            },
    {
        let mut i: usize = 0;
        while i < self.free.len()
            invariant
                self.free@ == old(self).free@,
                regions_ok(self.free@, align as int),
                align >= 1,
                i <= self.free.len(),
                forall|j: int| 0 <= j < i ==> fit_in(#[trigger] self.free@[j], size as int, align as int) is None,
            decreases self.free.len() - i,
        {
            let region = self.free[i];
            match Self::alloc_from_region(&region, size, align) {
                Ok(alloc_start) => {
                    let n = self.free.remove(i);
                    proof {
                        let p = choose|k: int|
                            0 <= k < old(self).free@.len() && fit_in(old(self).free@[k], size as int, align as int) is Some
                                && forall|j: int| 0 <= j < k ==> fit_in(#[trigger] old(self).free@[j], size as int, align as int) is None;
                        assert(0 <= i < old(self).free@.len() && fit_in(old(self).free@[i as int], size as int, align as int) is Some
                                && forall|j: int| 0 <= j < i ==> fit_in(#[trigger] old(self).free@[j], size as int, align as int) is None);
                        if p < i {
                        } else if p > i {
                        }
                        assert(p == i);
                    }
                    return Some((n, alloc_start));
                },
                Err(()) => {},
            }
            i = i + 1;
        }
        None
    }
}

} // verus!
