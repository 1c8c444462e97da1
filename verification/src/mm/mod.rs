//! Physical memory: per-region bitmap arenas, and pages allocated from
//! them.
use vstd::prelude::*;
use crate::addressing::{Pa, Va, PAGE_SIZE, VA_TO_PA_OFF};

pub mod slob_allocator;

verus! {

broadcast use crate::addressing::group_pa_value;

/// Whether page `i` is free in `bm` (bit set: free; bit clear: used).
pub open spec fn page_free(bm: Seq<u64>, i: int) -> bool {
    bm[i / 64] & (1u64 << ((i % 64) as u64)) != 0
}

/// Clearing bit `a` of a word leaves every other bit.
proof fn lemma_clear_bit(w: u64, a: u64, b: u64)
    requires
        a < 64,
        b < 64,
    ensures
        ((w & !(1u64 << a)) & (1u64 << b) != 0) == (a != b && w & (1u64 << b) != 0),
{
    assert(((w & !(1u64 << a)) & (1u64 << b) != 0) == (a != b && w & (1u64 << b) != 0))
        by (bit_vector)
        requires
            a < 64,
            b < 64,
    ;
}

/// Setting bit `a` of a word leaves every other bit.
proof fn lemma_set_bit(w: u64, a: u64, b: u64)
    requires
        a < 64,
        b < 64,
    ensures
        ((w | (1u64 << a)) & (1u64 << b) != 0) == (a == b || w & (1u64 << b) != 0),
{
    assert(((w | (1u64 << a)) & (1u64 << b) != 0) == (a == b || w & (1u64 << b) != 0))
        by (bit_vector)
        requires
            a < 64,
            b < 64,
    ;
}

/// A word with a set bit is not zero.
proof fn lemma_bit_nonzero(w: u64, b: u64)
    requires
        b < 64,
        w & (1u64 << b) != 0,
    ensures
        w != 0,
{
    assert(w & (1u64 << b) != 0 ==> w != 0) by (bit_vector);
}

/// The pages of one memory region, with a bitmap of which are free.
pub struct Arena {
    pub bitmap: Vec<u64>,
    pub start: Va,
    pub end: Va,
}

impl Arena {
    /// Number of pages the bitmap covers.
    pub open spec fn pages(&self) -> int {
        self.bitmap.len() * 64
    }

    /// Whether page `i` is free.
    pub open spec fn is_free(&self, i: int) -> bool {
        page_free(self.bitmap@, i)
    }

    /// Whether `cnt` pages from page `s` fit, are aligned to `align` pages
    /// (counted from physical page 0 of the kernel alias) and are free.
    pub open spec fn feasible(&self, s: int, cnt: int, align: int) -> bool {
        &&& 0 <= s
        &&& s + cnt <= self.pages()
        &&& (align == 0 || ((self.start.value() / 4096) + s) % align == 0)
        &&& forall|k: int| s <= k < s + cnt ==> #[trigger] self.is_free(k)
    }

    /// Whether `s` is the lowest page where `cnt` pages fit.
    pub open spec fn first_fit(&self, s: int, cnt: int, align: int) -> bool {
        &&& self.feasible(s, cnt, align)
        &&& forall|t: int| 0 <= t < s ==> !#[trigger] self.feasible(t, cnt, align)
    }

    /// Whether the last word has a free page and the last page is used,
    /// so that no search runs off the end of the bitmap.
    pub open spec fn end_guarded(&self) -> bool {
        &&& self.bitmap.len() > 0
        &&& self.bitmap@.last() != 0
        &&& !self.is_free(self.pages() - 1)
    }

    /// Mark page `index` used.
    pub fn set_used(&mut self, index: usize)
        requires
            index < old(self).pages(),
            old(self).is_free(index as int),
        ensures
            final(self).bitmap.len() == old(self).bitmap.len(),
            final(self).start == old(self).start && final(self).end == old(self).end,
            forall|i: int|
                0 <= i < old(self).pages() ==> #[trigger] final(self).is_free(i) == (i != index
                    && old(self).is_free(i)),
    {
        let (pos, ofs) = (index / 64, index % 64);
        let w = self.bitmap[pos];
        self.bitmap.set(pos, w & !(1u64 << (ofs as u64)));
        assert forall|i: int| 0 <= i < old(self).pages() implies #[trigger] self.is_free(i) == (i
            != index && old(self).is_free(i)) by {
            if i / 64 == pos {
                lemma_clear_bit(w, ofs as u64, (i % 64) as u64);
            }
        }
    }

    /// Mark page `index` free.
    pub fn set_unused(&mut self, index: usize)
        requires
            index < old(self).pages(),
            !old(self).is_free(index as int),
        ensures
            final(self).bitmap.len() == old(self).bitmap.len(),
            final(self).start == old(self).start && final(self).end == old(self).end,
            forall|i: int|
                0 <= i < old(self).pages() ==> #[trigger] final(self).is_free(i) == (i == index
                    || old(self).is_free(i)),
    {
        let (pos, ofs) = (index / 64, index % 64);
        let w = self.bitmap[pos];
        self.bitmap.set(pos, w | (1u64 << (ofs as u64)));
        assert forall|i: int| 0 <= i < old(self).pages() implies #[trigger] self.is_free(i) == (i
            == index || old(self).is_free(i)) by {
            if i / 64 == pos {
                lemma_set_bit(w, ofs as u64, (i % 64) as u64);
            }
        }
    }
}

impl Arena {
    /// Allocate `cnt` pages aligned to `align` pages: the lowest run that
    /// fits is marked used and its address is given; none when no run fits.
    pub fn alloc_pages(&mut self, cnt: usize, align: usize) -> (r: Option<Va>)
        requires
            cnt >= 1,
            old(self).bitmap.len() > 0,
            old(self).bitmap.len() * 64 * PAGE_SIZE + old(self).start.value() <= usize::MAX,
            (exists|s: int| old(self).feasible(s, cnt as int, align as int)) || old(self).end_guarded(),
        ensures
            final(self).start == old(self).start && final(self).end == old(self).end,
            final(self).bitmap.len() == old(self).bitmap.len(),
            r is Some <==> exists|s: int| old(self).feasible(s, cnt as int, align as int),
            r is None ==> *final(self) == *old(self),
            r is Some ==> exists|s: int|
                #![trigger old(self).first_fit(s, cnt as int, align as int)]
                old(self).first_fit(s, cnt as int, align as int) && r->0.value() == old(
                    self,
                ).start.value() + s * PAGE_SIZE && forall|i: int|
                    0 <= i < old(self).pages() ==> #[trigger] final(self).is_free(i) == (old(
                        self,
                    ).is_free(i) && !(s <= i < s + cnt)),
    {
        let ghost orig = *self;
        let n = self.bitmap.len();
        let total = n * 64;
        let sv = self.start.into_usize();
        let start_page = sv >> 12usize;
        assert(start_page == sv / 4096) by (bit_vector)
            requires
                start_page == sv >> 12usize,
        ;
        let mut search: usize = 0;
        while search < total
            invariant
                orig == *old(self),
                *self == orig,
                n == self.bitmap.len(),
                total == n * 64,
                start_page == self.start.value() / 4096,
                cnt >= 1,
                n * 64 * PAGE_SIZE + self.start.value() <= usize::MAX,
                (exists|s: int| self.feasible(s, cnt as int, align as int)) || self.end_guarded(),
                search <= total,
                forall|t: int| 0 <= t < search ==> !#[trigger] self.feasible(t, cnt as int, align as int),
            decreases total - search,
        {
            if search % 64 == 0 {
                let mut pos = search / 64;
                proof {
                    if exists|s: int| self.feasible(s, cnt as int, align as int) {
                        let s = choose|s: int| self.feasible(s, cnt as int, align as int);
                        assert(self.is_free(s));
                        lemma_bit_nonzero(self.bitmap@[s / 64], (s % 64) as u64);
                        assert(pos <= s / 64 < n && self.bitmap@[s / 64] != 0);
                    } else {
                        assert(self.bitmap@[n - 1] != 0);
                    }
                }
                while self.bitmap[pos] == 0
                    invariant
                        orig == *old(self),
                        *self == orig,
                        n == self.bitmap.len(),
                        search % 64 == 0,
                        search / 64 <= pos < n,
                        exists|w: int| pos <= w < n && self.bitmap@[w] != 0,
                        forall|t: int|
                            search <= t < pos * 64 ==> !#[trigger] self.is_free(t),
                    decreases n - pos,
                {
                    assert forall|t: int| search <= t < (pos + 1) * 64 implies !#[trigger] self.is_free(t) by {
                        if t >= pos * 64 {
                            assert(t / 64 == pos);
                            let wz = self.bitmap@[pos as int];
                            let b = (t % 64) as u64;
                            assert(wz & (1u64 << b) == 0) by (bit_vector)
                                requires
                                    wz == 0,
                            ;
                        }
                    }
                    pos = pos + 1;
                }
                assert forall|t: int| 0 <= t < pos * 64 implies !#[trigger] self.feasible(t, cnt as int, align as int) by {
                    if t >= search {
                        assert(!self.is_free(t));
                    }
                }
                search = pos * 64;
            }
            if align != 0 && (start_page + search) % align != 0 {
                search = search + 1;
            } else {
                let start = search;
                let mut cont: usize = 0;
                loop
                    invariant_except_break
                        search == start + cont,
                        forall|k: int| start <= k < search ==> #[trigger] self.is_free(k),
                    invariant
                        orig == *old(self),
                        *self == orig,
                        n == self.bitmap.len(),
                        total == n * 64,
                        start_page == self.start.value() / 4096,
                        n * 64 * PAGE_SIZE + self.start.value() <= usize::MAX,
                        (exists|s: int| self.feasible(s, cnt as int, align as int)) || self.end_guarded(),
                        start < total,
                        align == 0 || ((start_page + start) as int) % (align as int) == 0,
                        cont <= cnt,
                        forall|t: int| 0 <= t < start ==> !#[trigger] self.feasible(t, cnt as int, align as int),
                    ensures
                        search <= total,
                        search > start,
                        forall|t: int| 0 <= t < search ==> !#[trigger] self.feasible(t, cnt as int, align as int),
                        *self == orig,
                    decreases total - search,
                {
                    if cont == cnt {
                        assert(self.first_fit(start as int, cnt as int, align as int));
                        let mut i = start;
                        while i < start + cnt
                            invariant
                                orig == *old(self),
                                start <= i <= start + cnt <= total,
                                total == orig.pages(),
                                self.bitmap.len() == orig.bitmap.len(),
                                self.start == orig.start && self.end == orig.end,
                                forall|k: int| start <= k < start + cnt ==> #[trigger] orig.is_free(k),
                                forall|j: int|
                                    0 <= j < total ==> #[trigger] self.is_free(j) == (orig.is_free(j)
                                        && !(start <= j < i)),
                            decreases start + cnt - i,
                        {
                            self.set_used(i);
                            i = i + 1;
                        }
                        let r = Some(self.start.add(start * PAGE_SIZE));
                        assert(orig.first_fit(start as int, cnt as int, align as int));
                        return r;
                    }
                    proof {
                        if search >= total {
                            if exists|s: int| self.feasible(s, cnt as int, align as int) {
                                let s = choose|s: int| self.feasible(s, cnt as int, align as int);
                                assert(s >= start);
                            } else {
                                assert(self.is_free(total - 1));
                            }
                        }
                    }
                    let (p, o) = (search / 64, search % 64);
                    search = search + 1;
                    if self.bitmap[p] & (1u64 << (o as u64)) != 0 {
                        cont = cont + 1;
                    } else {
                        assert(!self.is_free(search - 1));
                        assert forall|t: int| 0 <= t < search implies !#[trigger] self.feasible(t, cnt as int, align as int) by {
                            if t >= start {
                                assert(!self.is_free(search - 1));
                            }
                        }
                        break;
                    }
                }
            }
        }
        assert forall|s: int| !self.feasible(s, cnt as int, align as int) by {
            if 0 <= s && self.feasible(s, cnt as int, align as int) {
                assert(s < search);
            }
        }
        None
    }
}

impl Arena {
    /// Mark the `cnt` pages from address `va` free again.
    pub fn dealloc(&mut self, va: Va, cnt: usize)
        requires
            old(self).pages() <= usize::MAX,
            va.value() >= old(self).start.value(),
            (va.value() - old(self).start.value()) / 4096 + cnt <= old(self).pages(),
            forall|i: int|
                (va.value() - old(self).start.value()) / 4096 <= i < (va.value() - old(
                    self,
                ).start.value()) / 4096 + cnt ==> !#[trigger] old(self).is_free(i),
        ensures
            final(self).start == old(self).start && final(self).end == old(self).end,
            final(self).bitmap.len() == old(self).bitmap.len(),
            forall|i: int|
                0 <= i < old(self).pages() ==> #[trigger] final(self).is_free(i) == (old(self).is_free(i)
                    || ((va.value() - old(self).start.value()) / 4096 <= i < (va.value() - old(
                    self,
                ).start.value()) / 4096 + cnt)),
    {
        let d = va.into_usize() - self.start.into_usize();
        let ofs = d >> 12usize;
        assert(ofs == d / 4096) by (bit_vector)
            requires
                ofs == d >> 12usize,
        ;
        let ghost orig = *self;
        let mut i = ofs;
        while i < ofs + cnt
            invariant
                orig == *old(self),
                orig.pages() <= usize::MAX,
                ofs <= i <= ofs + cnt <= orig.pages(),
                self.bitmap.len() == orig.bitmap.len(),
                self.start == orig.start && self.end == orig.end,
                forall|k: int| ofs <= k < ofs + cnt ==> !#[trigger] orig.is_free(k),
                forall|j: int|
                    0 <= j < orig.pages() ==> #[trigger] self.is_free(j) == (orig.is_free(j) || (ofs
                        <= j < i)),
            decreases ofs + cnt - i,
        {
            self.set_unused(i);
            i = i + 1;
        }
    }
}

/// Freeing the pages that an allocation took gives back the bitmap it
/// found: every page is free exactly when it was before.
pub proof fn lemma_dealloc_undoes_alloc(
    before: Arena,
    allocated: Arena,
    freed: Arena,
    s: int,
    cnt: int,
    align: int,
)
    requires
        before.feasible(s, cnt, align),
        allocated.bitmap.len() == before.bitmap.len(),
        freed.bitmap.len() == before.bitmap.len(),
        forall|i: int|
            0 <= i < before.pages() ==> #[trigger] allocated.is_free(i) == (before.is_free(i) && !(s
                <= i < s + cnt)),
        forall|i: int|
            0 <= i < before.pages() ==> #[trigger] freed.is_free(i) == (allocated.is_free(i) || (s
                <= i < s + cnt)),
    ensures
        forall|i: int| 0 <= i < before.pages() ==> #[trigger] freed.is_free(i) == before.is_free(i),
{
    assert forall|i: int| 0 <= i < before.pages() implies #[trigger] freed.is_free(i) == before.is_free(i) by {
        assert(freed.is_free(i) == (allocated.is_free(i) || (s <= i < s + cnt)));
        if s <= i < s + cnt {
            assert(before.is_free(i));
        }
    }
}

/// Number of arena slots.
pub const MAX_ARENAS: usize = 64;

/// The physical page allocator: one arena per usable region.
pub struct PhysicalAllocator {
    pub inner: Vec<Arena>,
    pub max_idx: usize,
}

/// Number of pages holding the bitmap of `len` words.
pub open spec fn bitmap_pages(len: int) -> int {
    (len * 8 + 4095) / 4096
}

/// Whether `a` is the fresh arena of the region from `start` to `end`:
/// its bitmap covers the region's pages rounded up to 64, and exactly the
/// pages after the bitmap's own pages and inside the region are free.
pub open spec fn fostered(a: Arena, start: Va, end: Va) -> bool {
    let usable = (end.value() - start.value()) / 4096;
    &&& a.start == start && a.end == end
    &&& a.bitmap.len() == (usable + 63) / 64
    &&& forall|i: int|
        0 <= i < a.pages() ==> #[trigger] a.is_free(i) == (bitmap_pages(a.bitmap.len() as int) <= i
            < usable)
}

impl PhysicalAllocator {
    /// The arenas in use are the first `max_idx`.
    pub open spec fn wf(&self) -> bool {
        self.max_idx == self.inner.len() && self.max_idx <= MAX_ARENAS
    }

    /// An allocator with no arena.
    pub fn new() -> (r: PhysicalAllocator)
        ensures
            r.wf(),
            r.max_idx == 0,
    {
        PhysicalAllocator { inner: Vec::new(), max_idx: 0 }
    }

    /// Add the region from `start` to `end` as an arena: its first pages
    /// hold the bitmap and are used, as are the bitmap bits past its end;
    /// every other page is free.
    pub fn foster(&mut self, start: Va, end: Va)
        requires
            old(self).wf(),
            old(self).max_idx < MAX_ARENAS,
            start.value() <= end.value(),
            start.value() + ((end.value() - start.value()) / 4096 + 63) / 64 * 64 * 4096 <= usize::MAX,
        ensures
            final(self).wf(),
            final(self).max_idx == old(self).max_idx + 1,
            forall|i: int| 0 <= i < old(self).max_idx ==> final(self).inner@[i] == old(self).inner@[i],
            fostered(final(self).inner@[old(self).max_idx as int], start, end),
    {
        let d = end.into_usize() - start.into_usize();
        let usable_pages = d >> 12usize;
        assert(usable_pages == d / 4096) by (bit_vector)
            requires
                usable_pages == d >> 12usize,
        ;
        let len = (usable_pages + 63) / 64;
        let mut bitmap: Vec<u64> = Vec::new();
        while bitmap.len() < len
            invariant
                bitmap.len() <= len,
                forall|k: int| 0 <= k < bitmap.len() ==> bitmap@[k] == u64::MAX,
            decreases len - bitmap.len(),
        {
            bitmap.push(u64::MAX);
        }
        let mut arena = Arena { bitmap, start, end };
        assert forall|i: int| 0 <= i < arena.pages() implies #[trigger] arena.is_free(i) by {
            let b = (i % 64) as u64;
            assert(u64::MAX & (1u64 << b) != 0) by (bit_vector)
                requires
                    b < 64,
            ;
        }
        let lb = len * 8 + 4095;
        let front = lb >> 12usize;
        assert(front == lb / 4096) by (bit_vector)
            requires
                front == lb >> 12usize,
        ;
        assert(front <= usable_pages);
        let mut i: usize = 0;
        while i < front
            invariant
                arena.bitmap.len() == len,
                arena.start == start && arena.end == end,
                front <= usable_pages <= len * 64,
                i <= front,
                forall|j: int| 0 <= j < len * 64 ==> #[trigger] arena.is_free(j) == !(0 <= j < i),
            decreases front - i,
        {
            arena.set_used(i);
            i = i + 1;
        }
        let mut i: usize = usable_pages;
        while i < len * 64
            invariant
                arena.bitmap.len() == len,
                arena.start == start && arena.end == end,
                front <= usable_pages <= i <= len * 64,
                len * 64 * 4096 <= usize::MAX,
                forall|j: int|
                    0 <= j < len * 64 ==> #[trigger] arena.is_free(j) == (front <= j && !(usable_pages
                        <= j < i)),
            decreases len * 64 - i,
        {
            arena.set_used(i);
            i = i + 1;
        }
        self.inner.push(arena);
        self.max_idx = self.max_idx + 1;
    }
}

/// Whether `cnt` pages aligned to `align` pages fit somewhere in `a`.
pub open spec fn has_fit(a: Arena, cnt: int, align: int) -> bool {
    exists|s: int| a.feasible(s, cnt, align)
}

/// Whether the search of `a` stays within its bitmap.
pub open spec fn searchable(a: Arena, cnt: int, align: int) -> bool {
    &&& a.bitmap.len() > 0
    &&& a.pages() * PAGE_SIZE + a.start.value() <= usize::MAX
    &&& (has_fit(a, cnt, align) || a.end_guarded())
}

/// Whether every arena that an allocation visits (each one until one has
/// room) can be searched.
pub open spec fn allocatable(p: &PhysicalAllocator, cnt: int, align: int) -> bool {
    forall|i: int|
        0 <= i < p.max_idx ==> (forall|j: int| 0 <= j < i ==> !has_fit(#[trigger] p.inner@[j], cnt, align))
            ==> searchable(#[trigger] p.inner@[i], cnt, align)
}

/// Number of pages for `size` bytes.
pub open spec fn pages_for(size: int) -> int {
    (size + 4095) / 4096
}

/// Physically contiguous pages from arena `arena_idx`.
#[derive(Debug)]
pub struct ContigPages {
    pub arena_idx: usize,
    pub va: Va,
    pub cnt: usize,
}

/// One page.
#[derive(Debug)]
pub struct Page {
    pub inner: ContigPages,
}

impl ContigPages {
    /// Allocate pages for `size` bytes, aligned to `align` bytes, from the
    /// first arena that has room.
    pub fn new_with_align(size: usize, align: usize, palloc: &mut PhysicalAllocator) -> (r: Option<
        ContigPages,
    >)
        requires
            old(palloc).wf(),
            size + 4095 <= usize::MAX,
            size != 0 ==> allocatable(old(palloc), pages_for(size as int), align as int / 4096),
        ensures
            final(palloc).wf(),
            final(palloc).max_idx == old(palloc).max_idx,
            r is Some <==> size != 0 && exists|i: int|
                0 <= i < old(palloc).max_idx && has_fit(
                    #[trigger] old(palloc).inner@[i],
                    pages_for(size as int),
                    align as int / 4096,
                ),
            r is None ==> final(palloc).inner@ == old(palloc).inner@,
            r is Some ==> {
                let i = r->0.arena_idx as int;
                let a = old(palloc).inner@[i];
                &&& i < old(palloc).max_idx
                &&& r->0.cnt == pages_for(size as int)
                &&& has_fit(a, pages_for(size as int), align as int / 4096)
                &&& forall|j: int| 0 <= j < i ==> !has_fit(#[trigger] old(palloc).inner@[j], pages_for(size as int), align as int / 4096)
                &&& exists|s: int|
                    #![trigger a.first_fit(s, pages_for(size as int), align as int / 4096)]
                    a.first_fit(s, pages_for(size as int), align as int / 4096) && r->0.va.value()
                        == a.start.value() + s * PAGE_SIZE
                &&& forall|j: int| 0 <= j < old(palloc).max_idx && j != i ==> final(palloc).inner@[j] == old(palloc).inner@[j]
            },
    {
        if size == 0 {
            return None;
        }
        let t = size + 0xfff;
        let cnt = t >> 12usize;
        assert(cnt == t / 4096) by (bit_vector)
            requires
                cnt == t >> 12usize,
        ;
        let pa = align >> 12usize;
        assert(pa == align / 4096) by (bit_vector)
            requires
                pa == align >> 12usize,
        ;
        let ghost orig = palloc.inner@;
        let mut idx: usize = 0;
        while idx < palloc.max_idx
            invariant
                palloc.wf(),
                palloc.inner@ == orig,
                orig == old(palloc).inner@,
                palloc.max_idx == old(palloc).max_idx,
                cnt == pages_for(size as int),
                pa == align as int / 4096,
                cnt >= 1,
                idx <= palloc.max_idx,
                allocatable(old(palloc), cnt as int, pa as int),
                forall|j: int| 0 <= j < idx ==> !has_fit(#[trigger] orig[j], cnt as int, pa as int),
            decreases palloc.max_idx - idx,
        {
            let mut arena = palloc.inner.remove(idx);
            assert(arena == orig[idx as int]);
            assert(searchable(orig[idx as int], cnt as int, pa as int));
            let got = arena.alloc_pages(cnt, pa);
            palloc.inner.insert(idx, arena);
            match got {
                Some(va) => {
                    assert(has_fit(orig[idx as int], cnt as int, pa as int));
                    return Some(ContigPages { arena_idx: idx, va, cnt });
                },
                None => {
                    assert(palloc.inner@ =~= orig);
                },
            }
            idx = idx + 1;
        }
        None
    }

    /// Allocate one page-aligned run of pages for `size` bytes.
    pub fn new(size: usize, palloc: &mut PhysicalAllocator) -> (r: Option<ContigPages>)
        requires
            old(palloc).wf(),
            size + 4095 <= usize::MAX,
            size != 0 ==> allocatable(old(palloc), pages_for(size as int), 1),
        ensures
            final(palloc).wf(),
            r is Some <==> size != 0 && exists|i: int|
                0 <= i < old(palloc).max_idx && has_fit(
                    #[trigger] old(palloc).inner@[i],
                    pages_for(size as int),
                    1,
                ),
            r is Some ==> r->0.cnt == pages_for(size as int),
    {
        Self::new_with_align(size, 0x1000, palloc)
    }

    /// Kernel virtual address of the first page.
    pub fn va(&self) -> (r: Va)
        ensures
            r == self.va,
    {
        self.va
    }

    /// Physical address of the first page.
    pub fn pa(&self) -> (r: Pa)
        requires
            self.va.value() >= VA_TO_PA_OFF,
        ensures
            r.value() == self.va.value() - VA_TO_PA_OFF,
    {
        self.va.into_pa()
    }

    /// One page for each page of the run, in order.
    pub fn split(self) -> (r: Vec<Page>)
        requires
            self.va.value() + self.cnt * PAGE_SIZE <= usize::MAX,
        ensures
            r.len() == self.cnt,
            forall|i: int|
                0 <= i < self.cnt ==> (#[trigger] r@[i]).inner.va.value() == self.va.value() + i
                    * PAGE_SIZE && r@[i].inner.cnt == 1 && r@[i].inner.arena_idx == self.arena_idx,
    {
        let mut out: Vec<Page> = Vec::new();
        let mut i: usize = 0;
        while i < self.cnt
            invariant
                self.va.value() + self.cnt * PAGE_SIZE <= usize::MAX,
                i <= self.cnt,
                out.len() == i,
                forall|k: int|
                    0 <= k < i ==> (#[trigger] out@[k]).inner.va.value() == self.va.value() + k
                        * PAGE_SIZE && out@[k].inner.cnt == 1 && out@[k].inner.arena_idx
                        == self.arena_idx,
            decreases self.cnt - i,
        {
            assert(i * PAGE_SIZE <= self.cnt * PAGE_SIZE) by (nonlinear_arith)
                requires
                    i <= self.cnt,
            ;
            out.push(
                Page {
                    inner: ContigPages { arena_idx: self.arena_idx, va: self.va.add(i * PAGE_SIZE), cnt: 1 },
                },
            );
            i = i + 1;
        }
        out
    }
}

impl Page {
    /// Allocate one page.
    pub fn new(palloc: &mut PhysicalAllocator) -> (r: Option<Page>)
        requires
            old(palloc).wf(),
            allocatable(old(palloc), 1, 1),
        ensures
            final(palloc).wf(),
            r is Some <==> exists|i: int|
                0 <= i < old(palloc).max_idx && has_fit(#[trigger] old(palloc).inner@[i], 1, 1),
            r is Some ==> r->0.inner.cnt == 1,
    {
        match ContigPages::new(0x1000, palloc) {
            Some(inner) => Some(Page { inner }),
            None => None,
        }
    }

    /// Kernel virtual address of the page.
    pub fn va(&self) -> (r: Va)
        ensures
            r == self.inner.va,
    {
        self.inner.va
    }

    /// Physical address of the page.
    pub fn pa(&self) -> (r: Pa)
        requires
            self.inner.va.value() >= VA_TO_PA_OFF,
        ensures
            r.value() == self.inner.va.value() - VA_TO_PA_OFF,
    {
        self.inner.va.into_pa()
    }

    /// Give up ownership of the page and get its physical address.
    pub fn into_raw(self) -> (r: Pa)
        requires
            self.inner.va.value() >= VA_TO_PA_OFF,
        ensures
            r.value() == self.inner.va.value() - VA_TO_PA_OFF,
    {
        self.pa()
    }
}

/// Whether arena `a` covers the address `va`.
pub open spec fn covers(a: Arena, va: Va) -> bool {
    a.start.value() <= va.value() < a.end.value()
}

/// Whether arena `i` is the first arena of `p` that covers `va`.
pub open spec fn first_covering(p: &PhysicalAllocator, va: Va, i: int) -> bool {
    &&& 0 <= i < p.max_idx
    &&& covers(p.inner@[i], va)
    &&& forall|j: int| 0 <= j < i ==> !covers(#[trigger] p.inner@[j], va)
}

impl PhysicalAllocator {
    /// The first arena that covers `va` (one must).
    pub fn arena_of(&self, va: Va) -> (r: usize)
        requires
            self.wf(),
            exists|i: int| 0 <= i < self.max_idx && covers(#[trigger] self.inner@[i], va),
        ensures
            first_covering(self, va, r as int),
    {
        let mut i: usize = 0;
        while i < self.max_idx
            invariant
                self.wf(),
                i <= self.max_idx,
                exists|k: int| i <= k < self.max_idx && covers(#[trigger] self.inner@[k], va),
                forall|j: int| 0 <= j < i ==> !covers(#[trigger] self.inner@[j], va),
            decreases self.max_idx - i,
        {
            let a = &self.inner[i];
            if a.start.into_usize() <= va.into_usize() && va.into_usize() < a.end.into_usize() {
                return i;
            }
            i = i + 1;
        }
        i
    }
}

impl ContigPages {
    /// Take back the `size` bytes of pages at `va` that an allocation gave
    /// out (and whose ownership was given up): they belong to the first
    /// arena covering `va`.
    pub fn from_va(va: Va, size: usize, palloc: &PhysicalAllocator) -> (r: ContigPages)
        requires
            palloc.wf(),
            exists|i: int| 0 <= i < palloc.max_idx && covers(#[trigger] palloc.inner@[i], va),
        ensures
            first_covering(palloc, va, r.arena_idx as int),
            r.va == va,
            r.cnt == size / 4096,
    {
        let arena_idx = palloc.arena_of(va);
        ContigPages { arena_idx, va, cnt: size / 4096 }
    }

    /// Give the pages back to their arena.
    pub fn release(self, palloc: &mut PhysicalAllocator)
        requires
            old(palloc).wf(),
            self.arena_idx < old(palloc).max_idx,
            ({
                let a = old(palloc).inner@[self.arena_idx as int];
                &&& a.pages() <= usize::MAX
                &&& self.va.value() >= a.start.value()
                &&& (self.va.value() - a.start.value()) / 4096 + self.cnt <= a.pages()
                &&& forall|i: int|
                    (self.va.value() - a.start.value()) / 4096 <= i < (self.va.value() - a.start.value()) / 4096
                        + self.cnt ==> !#[trigger] a.is_free(i)
            }),
        ensures
            final(palloc).wf(),
            final(palloc).max_idx == old(palloc).max_idx,
            forall|j: int| 0 <= j < old(palloc).max_idx && j != self.arena_idx ==> final(palloc).inner@[j]
                == old(palloc).inner@[j],
            ({
                let a = old(palloc).inner@[self.arena_idx as int];
                let b = final(palloc).inner@[self.arena_idx as int];
                let first = (self.va.value() - a.start.value()) / 4096;
                &&& b.start == a.start && b.end == a.end && b.bitmap.len() == a.bitmap.len()
                &&& forall|i: int| 0 <= i < a.pages() ==> #[trigger] b.is_free(i) == (a.is_free(i) || (first <= i < first + self.cnt))
            }),
    {
        let idx = self.arena_idx;
        let mut arena = palloc.inner.remove(idx);
        arena.dealloc(self.va, self.cnt);
        palloc.inner.insert(idx, arena);
        proof {
            assert forall|j: int| 0 <= j < old(palloc).max_idx && j != idx implies palloc.inner@[j] == old(palloc).inner@[j] by {
                if j < idx {
                    assert(palloc.inner@[j] == old(palloc).inner@[j]);
                } else {
                    assert(palloc.inner@[j] == old(palloc).inner@[j]);
                }
            }
        }
    }
}

impl Page {
    /// Take back the page at `pa` whose ownership `into_raw` gave up.
    pub fn from_pa(pa: Pa, palloc: &PhysicalAllocator) -> (r: Page)
        requires
            palloc.wf(),
            pa.value() + VA_TO_PA_OFF <= usize::MAX,
            exists|i: int| 0 <= i < palloc.max_idx && #[trigger] palloc.inner@[i].start.value() <= pa.value() + VA_TO_PA_OFF < palloc.inner@[i].end.value(),
        ensures
            first_covering(palloc, r.inner.va, r.inner.arena_idx as int),
            r.inner.va.value() == pa.value() + VA_TO_PA_OFF,
            r.inner.cnt == 1,
    {
        let va = pa.into_va();
        assert(exists|i: int| 0 <= i < palloc.max_idx && covers(#[trigger] palloc.inner@[i], va));
        Page { inner: ContigPages::from_va(va, 0x1000, palloc) }
    }
}

/// A page given up with `Page::into_raw` is taken back with
/// `Page::from_pa`: when the page lies in arena `arena_idx` of `palloc`, the
/// physical address `into_raw` gives meets what `from_pa` asks, and the page
/// `from_pa` makes of it (at that address plus the offset) is at the same
/// address as `p` (`into_raw` takes no allocator, so the page stays in use).
pub proof fn lemma_raw_page_round_trip(p: Page, a: Pa, palloc: &PhysicalAllocator)
    requires
        palloc.wf(),
        p.inner.arena_idx < palloc.max_idx,
        covers(palloc.inner@[p.inner.arena_idx as int], p.inner.va),
        p.inner.va.value() >= VA_TO_PA_OFF,
        a.value() == p.inner.va.value() - VA_TO_PA_OFF,
    ensures
        a.value() + VA_TO_PA_OFF <= usize::MAX,
        exists|i: int|
            0 <= i < palloc.max_idx && #[trigger] palloc.inner@[i].start.value() <= a.value()
                + VA_TO_PA_OFF < palloc.inner@[i].end.value(),
        a.value() + VA_TO_PA_OFF == p.inner.va.value(),
{
    let i = p.inner.arena_idx as int;
    assert(palloc.inner@[i].start.value() <= a.value() + VA_TO_PA_OFF < palloc.inner@[i].end.value());
}

/// Round `addr` up to a multiple of `align`.
pub fn align_up(addr: usize, align: usize) -> (r: usize)
    requires
        align >= 1,
        addr + align - 1 <= usize::MAX,
    ensures
        r == ((addr + align - 1) as usize) & !((align - 1) as usize),
        align & ((align - 1) as usize) == 0 ==> r & ((align - 1) as usize) == 0 && addr <= r && r
            < addr + align,
{
    proof {
        if align & ((align - 1) as usize) == 0 {
            lemma_align_up(addr, align);
        }
    }
    (addr + (align - 1)) & !(align - 1)
}

/// For a power-of-two alignment, rounding up gives the least multiple of
/// the alignment that is not below the address.
pub proof fn lemma_align_up(addr: usize, align: usize)
    requires
        align >= 1,
        align & ((align - 1) as usize) == 0,
        addr + align - 1 <= usize::MAX,
    ensures
        ((addr + align - 1) as usize & !((align - 1) as usize)) & ((align - 1) as usize) == 0,
        addr <= ((addr + align - 1) as usize & !((align - 1) as usize)),
        ((addr + align - 1) as usize & !((align - 1) as usize)) < addr + align,
{
    let x = (addr + align - 1) as usize;
    let m = (align - 1) as usize;
    assert((x & !m) & m == 0 && x - (x & !m) == x & m && x & m <= m) by (bit_vector);
}

} // verus!
