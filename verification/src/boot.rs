//! Boot information: the physical memory map that the boot loader hands
//! over, turned into a sorted list of maximal regions.
use vstd::prelude::*;
use core::ops::Range;
use crate::addressing::{Pa, PA_LIMIT};
use crate::bytes::{get_u32, get_u64, le_u32, le_u64};
use crate::x86_64::interrupt::{gate, ExceptionType, ExceptionVector, InterruptGateDescriptor};
use crate::x86_64::segmentation::{selector_bits, Segment, SegmentSelector};
use crate::x86_64::table::{InterruptDescriptorTable, IDT_ENTRIES};

verus! {

broadcast use vstd::seq_lib::group_to_multiset_ensures, vstd::multiset::group_multiset_properties,
    crate::addressing::lemma_pa_from_value, crate::addressing::lemma_pa_of_value;

/// A physically contiguous memory region.
#[derive(Debug, PartialEq, Eq)]
pub struct Region {
    pub addr: Range<Pa>,
    pub usable: bool,
}

/// The region from `start` to `end`.
pub open spec fn region(start: Pa, end: Pa, usable: bool) -> Region {
    Region { addr: Range { start, end }, usable }
}

/// The start address of a region.
pub open spec fn region_start(r: Region) -> usize {
    r.addr.start.value()
}

/// Whether the starts of `s` never decrease.
pub open spec fn sorted_by_start(s: Seq<Region>) -> bool {
    forall|a: int, b: int| 0 <= a < b < s.len() ==> region_start(s[a]) <= region_start(s[b])
}

/// Whether `b` continues `a` exactly: it starts where `a` ends and has the
/// same usability.
pub open spec fn mergeable(a: Region, b: Region) -> bool {
    a.addr.end == b.addr.start && a.usable == b.usable
}

/// Merge each region into the previous one when it continues it.
pub open spec fn merge_regions(s: Seq<Region>) -> Seq<Region>
    decreases s.len(),
{
    if s.len() == 0 {
        s
    } else {
        let m = merge_regions(s.drop_last());
        let x = s.last();
        if m.len() > 0 && mergeable(m.last(), x) {
            m.update(m.len() - 1, region(m.last().addr.start, x.addr.end, x.usable))
        } else {
            m.push(x)
        }
    }
}

/// Number of region slots.
pub const MAX_REGIONS: usize = 64;

/// The memory regions, sorted and merged; only the first `size` slots
/// are meaningful.
#[derive(Debug)]
pub struct Regions {
    pub regions: Vec<Region>,
    pub size: usize,
}

impl Regions {
    /// The meaningful regions.
    pub open spec fn view(&self) -> Seq<Region> {
        self.regions@.take(self.size as int)
    }

    /// All slots exist and `size` of them are meaningful.
    pub open spec fn wf(&self) -> bool {
        self.regions.len() == MAX_REGIONS && self.size <= MAX_REGIONS
    }

    /// The meaningful regions, in order.
    pub fn iter(&self) -> (r: Vec<Region>)
        requires
            self.wf(),
        ensures
            r@ == self.view(),
    {
        let mut out: Vec<Region> = Vec::new();
        let mut i: usize = 0;
        while i < self.size
            invariant
                self.wf(),
                i <= self.size,
                out@ == self.regions@.take(i as int),
            decreases self.size - i,
        {
            out.push(copy_region(&self.regions[i]));
            i = i + 1;
            assert(out@ =~= self.regions@.take(i as int));
        }
        out
    }
}

/// A copy of `r`.
fn copy_region(r: &Region) -> (c: Region)
    ensures
        c == *r,
{
    Region { addr: Range { start: r.addr.start, end: r.addr.end }, usable: r.usable }
}

/// Size in bytes of one memory-map entry: base, length and type.
pub const MEMORY_MAP_ENTRY_SIZE: usize = 20;

/// The memory map of the boot information: `total_size` bytes of entries
/// laid out every `stride` bytes in `entries`.
#[derive(Debug)]
pub struct MemoryMap {
    pub version: u32,
    pub stride: u32,
    pub total_size: usize,
    pub entries: Vec<u8>,
}

/// Base address of the entry at `off`.
pub open spec fn entry_base(s: Seq<u8>, off: int) -> u64 {
    le_u64(s, off)
}

/// Length of the entry at `off`.
pub open spec fn entry_length(s: Seq<u8>, off: int) -> u64 {
    le_u64(s, off + 8)
}

/// Type of the entry at `off` (1 is usable memory).
pub open spec fn entry_type(s: Seq<u8>, off: int) -> u32 {
    le_u32(s, off + 16)
}

/// Four little-endian bytes encode 1 exactly when the first is 1 and the
/// others are 0.
proof fn lemma_le_u32_is_one(a: u8, b: u8, c: u8, d: u8)
    by (bit_vector)
    ensures
        ((a as u32) | ((b as u32) << 8u32) | ((c as u32) << 16u32) | ((d as u32) << 24u32) == 1)
            <==> (a == 1 && b == 0 && c == 0 && d == 0),
{
}

/// A region is usable exactly when its entry's type is 1, available RAM:
/// the four little-endian type bytes of the entry read 1, 0, 0, 0. Reserved
/// memory (2), ACPI-reclaimable memory (3), NVS (4), bad RAM (5) and every
/// other type are not usable.
pub proof fn lemma_region_usable_iff_available(m: MemoryMap, i: int)
    requires
        m.offset(i) + MEMORY_MAP_ENTRY_SIZE <= m.entries@.len(),
        0 <= m.offset(i),
    ensures
        m.region_at(i).usable <==> ({
            let t = m.entries@.subrange(m.offset(i) + 16, m.offset(i) + 20);
            t == seq![1u8, 0u8, 0u8, 0u8]
        }),
{
    let off = m.offset(i);
    let e = m.entries@;
    lemma_le_u32_is_one(e[off + 16], e[off + 17], e[off + 18], e[off + 19]);
    let t = e.subrange(off + 16, off + 20);
    if t == seq![1u8, 0u8, 0u8, 0u8] {
        assert(t[0] == e[off + 16] && t[1] == e[off + 17] && t[2] == e[off + 18] && t[3] == e[off + 19]);
    }
    if e[off + 16] == 1 && e[off + 17] == 0 && e[off + 18] == 0 && e[off + 19] == 0 {
        assert(t =~= seq![1u8, 0u8, 0u8, 0u8]);
    }
}

impl MemoryMap {
    /// Number of entries.
    pub open spec fn count(&self) -> int {
        self.total_size as int / self.stride as int
    }

    /// Offset of entry `i`.
    pub open spec fn offset(&self, i: int) -> int {
        i * self.stride
    }

    /// The region that entry `i` describes.
    pub open spec fn region_at(&self, i: int) -> Region {
        let off = self.offset(i);
        let base = entry_base(self.entries@, off) as usize;
        region(
            Pa::from_value(base),
            Pa::from_value((base + entry_length(self.entries@, off)) as usize),
            entry_type(self.entries@, off) == 1,
        )
    }

    /// The regions of all entries, in map order.
    pub open spec fn parsed(&self) -> Seq<Region> {
        Seq::new(self.count() as nat, |i: int| self.region_at(i))
    }

    /// Whether entry `i` lies in `entries` and describes a valid range.
    pub open spec fn entry_ok(&self, i: int) -> bool {
        let off = self.offset(i);
        &&& off + MEMORY_MAP_ENTRY_SIZE <= self.entries@.len()
        &&& entry_base(self.entries@, off) < PA_LIMIT
        &&& entry_base(self.entries@, off) + entry_length(self.entries@, off) <= usize::MAX
    }

    /// Whether the map can be read: a stride that holds an entry, fewer
    /// entries than region slots, and every entry the reader visits (the
    /// one just past the last included) valid.
    pub open spec fn wf(&self) -> bool {
        &&& self.stride >= MEMORY_MAP_ENTRY_SIZE
        &&& self.count() < MAX_REGIONS
        &&& forall|i: int| 0 <= i <= self.count() ==> #[trigger] self.entry_ok(i)
    }

    /// Read the region of entry `i`.
    fn read_region(&self, i: usize) -> (r: Region)
        requires
            self.stride > 0,
            i <= self.count(),
            self.entry_ok(i as int),
        ensures
            r == self.region_at(i as int),
    {
        proof {
            vstd::arithmetic::mul::lemma_mul_inequality(i as int, self.count(), self.stride as int);
            vstd::arithmetic::div_mod::lemma_fundamental_div_mod(self.total_size as int, self.stride as int);
        }
        let off = i * (self.stride as usize);
        assert(off == self.offset(i as int));
        assert(off + MEMORY_MAP_ENTRY_SIZE <= self.entries@.len());
        let _n = self.entries.len();
        let base = get_u64(self.entries.as_slice(), off);
        let length = get_u64(self.entries.as_slice(), off + 8);
        let ty = get_u32(self.entries.as_slice(), off + 16);
        let start = Pa::new(base as usize).unwrap();
        Region {
            addr: Range { start, end: start.add(length as usize) },
            usable: ty == 1,
        }
    }
}

/// Tag type that ends the boot information.
pub const TAG_END: u32 = 0;
/// Tag type of the memory map.
pub const TAG_MEMORY_MAP: u32 = 6;

/// The distance from one tag to the next: its size rounded up to 8.
pub open spec fn tag_step(size: u32) -> int {
    size + 7 - (size + 7) % 8
}

/// The offset of the first memory-map tag found by walking the tags of `f`
/// from `pos`, within the first `total` bytes; none when an end tag comes
/// first or the walk leaves the area.
pub open spec fn mmap_tag(f: Seq<u8>, total: int, pos: int) -> Option<int>
    decreases (if pos <= total {
        total - pos
    } else {
        0
    }),
{
    if pos < 0 || pos + 8 > total {
        None
    } else {
        let ty = le_u32(f, pos);
        let size = le_u32(f, pos + 4);
        if ty == TAG_END {
            None
        } else if ty == TAG_MEMORY_MAP {
            Some(pos)
        } else if size == 0 {
            None
        } else {
            proof {
                assert((size + 7) % 8 < 8);
            }
            mmap_tag(f, total, pos + tag_step(size))
        }
    }
}

/// Whether the walk from `pos` ends: every visited tag's size can be rounded
/// up in 32 bits, no visited tag but the last has size zero, and a
/// memory-map tag found holds its 16-byte header.
pub open spec fn walk_ok(f: Seq<u8>, total: int, pos: int) -> bool
    decreases (if pos <= total {
        total - pos
    } else {
        0
    }),
{
    if pos < 0 || pos + 8 > total {
        true
    } else {
        let ty = le_u32(f, pos);
        let size = le_u32(f, pos + 4);
        &&& size + 7 <= u32::MAX
        &&& if ty == TAG_END {
            true
        } else if ty == TAG_MEMORY_MAP {
            size >= 16 && pos + 16 <= f.len()
        } else {
            size != 0 && {
                proof {
                    assert((size + 7) % 8 < 8);
                }
                walk_ok(f, total, pos + tag_step(size))
            }
        }
    }
}

/// The boot information of a multiboot2 loader: `total_size` and the tags
/// that follow it.
#[derive(Debug)]
pub struct MultiBootInfo2 {
    pub total_size: u32,
    pub rev: u32,
    pub fields: Vec<u8>,
}

/// The memory map that the tag at `p` describes.
pub open spec fn map_of_tag(f: Seq<u8>, p: int, m: MemoryMap) -> bool {
    &&& m.stride == le_u32(f, p + 8)
    &&& m.version == le_u32(f, p + 12)
    &&& m.total_size == le_u32(f, p + 4) - 16
    &&& m.entries@ == f.subrange(p + 16, f.len() as int)
}

impl MultiBootInfo2 {
    /// Find the memory map among the tags.
    pub fn get_memory_map(&self) -> (r: Option<MemoryMap>)
        requires
            self.fields@.len() >= self.total_size,
            walk_ok(self.fields@, self.total_size as int, 0),
        ensures
            match mmap_tag(self.fields@, self.total_size as int, 0) {
                None => r is None,
                Some(p) => r is Some && map_of_tag(self.fields@, p, r->0),
            },
    {
        let ghost f = self.fields@;
        let ghost total = self.total_size as int;
        let mut pos: u64 = 0;
        let _n = self.fields.len();
        while pos + 8 <= self.total_size as u64
            invariant
                f == self.fields@,
                total == self.total_size,
                f.len() >= total,
                pos <= total + 0x1_0000_0000,
                walk_ok(f, total, pos as int),
                mmap_tag(f, total, 0) == mmap_tag(f, total, pos as int),
            decreases total + 0x1_0000_0000 - pos,
        {
            let p = pos as usize;
            let ty = get_u32(self.fields.as_slice(), p);
            let size = get_u32(self.fields.as_slice(), p + 4);
            let rounded = (size + 7) & !7u32;
            assert(rounded == tag_step(size)) by {
                let x = (size + 7) as u32;
                assert(x & !7u32 == x - x % 8) by (bit_vector);
            }
            if ty == TAG_END {
                return None;
            }
            assert(ty == le_u32(f, pos as int) && size == le_u32(f, pos + 4));
            if ty == TAG_MEMORY_MAP {
                assert(p + 16 <= f.len());
                let _len = self.fields.len();
                let mut entries: Vec<u8> = Vec::new();
                let mut k: usize = p + 16;
                while k < self.fields.len()
                    invariant
                        f == self.fields@,
                        p + 16 <= k <= f.len(),
                        entries@ == f.subrange(p + 16, k as int),
                    decreases f.len() - k,
                {
                    entries.push(self.fields[k]);
                    k = k + 1;
                    assert(entries@ =~= f.subrange(p + 16, k as int));
                }
                return Some(
                    MemoryMap {
                        stride: get_u32(self.fields.as_slice(), p + 8),
                        version: get_u32(self.fields.as_slice(), p + 12),
                        total_size: (size - 16) as usize,
                        entries,
                    },
                );
            }
            pos = pos + rounded as u64;
        }
        None
    }
}

/// Number of user-defined vectors.
pub const USER_DEFINED_VECTORS: usize = 224;

/// Addresses of the handlers that the kernel installs: six exception
/// handlers and one handler per user-defined vector (vector 32 + i).
pub struct IdtHandlers {
    pub invalid_opcode: u64,
    pub double_fault: u64,
    pub device_not_available: u64,
    pub general_protection: u64,
    pub page_fault: u64,
    pub simd_floating_point_exception: u64,
    pub user_defined: Vec<u64>,
}

/// The handler installed for vector `v`, if the kernel installs one.
pub open spec fn installed_handler(h: &IdtHandlers, v: int) -> Option<u64> {
    if v == 6 {
        Some(h.invalid_opcode)
    } else if v == 7 {
        Some(h.device_not_available)
    } else if v == 8 {
        Some(h.double_fault)
    } else if v == 13 {
        Some(h.general_protection)
    } else if v == 14 {
        Some(h.page_fault)
    } else if v == 19 {
        Some(h.simd_floating_point_exception)
    } else if 32 <= v < 256 {
        Some(h.user_defined@[v - 32])
    } else {
        None
    }
}

/// The kernel code selector.
pub open spec fn kernel_code_selector() -> SegmentSelector {
    SegmentSelector(selector_bits(1, 0))
}

/// Install the kernel's handlers: each becomes an interrupt gate through
/// the kernel code segment; the other gates stay as they were.
pub fn initialize_idt(idt: &mut InterruptDescriptorTable, handlers: &IdtHandlers)
    requires
        old(idt).wf(),
        handlers.user_defined.len() == USER_DEFINED_VECTORS,
    ensures
        final(idt).wf(),
        forall|v: int|
            0 <= v < IDT_ENTRIES ==> #[trigger] final(idt).entries@[v] == match installed_handler(
                handlers,
                v,
            ) {
                Some(h) => gate(kernel_code_selector(), ExceptionType::Interrupt, h),
                None => old(idt).entries@[v],
            },
{
    let ghost orig = idt.entries@;
    let ss = Segment::KernelCode.into_selector(0);
    let it = ExceptionType::Interrupt;
    idt.set(ExceptionVector::InvalidOpcode, ss, it, handlers.invalid_opcode);
    idt.set(ExceptionVector::DoubleFault, ss, it, handlers.double_fault);
    idt.set(ExceptionVector::DeviceNotAvailable, ss, it, handlers.device_not_available);
    idt.set(ExceptionVector::GeneralProtection, ss, it, handlers.general_protection);
    idt.set(ExceptionVector::PageFault, ss, it, handlers.page_fault);
    idt.set(
        ExceptionVector::SimdFloatingPointException,
        ss,
        it,
        handlers.simd_floating_point_exception,
    );
    let mut i: usize = 0;
    while i < USER_DEFINED_VECTORS
        invariant
            idt.wf(),
            ss == kernel_code_selector(),
            it == ExceptionType::Interrupt,
            handlers.user_defined.len() == USER_DEFINED_VECTORS,
            forall|v: int|
                0 <= v < IDT_ENTRIES ==> #[trigger] idt.entries@[v] == match installed_handler(
                    handlers,
                    v,
                ) {
                    Some(h) => if v < 32 + i || v < 32 {
                        gate(kernel_code_selector(), ExceptionType::Interrupt, h)
                    } else {
                        orig[v]
                    },
                    None => orig[v],
                },
        decreases USER_DEFINED_VECTORS - i,
    {
        let v = ExceptionVector::new(32 + i).unwrap();
        let ghost before = idt.entries@;
        idt.set(v, ss, it, handlers.user_defined[i]);
        assert forall|w: int| 0 <= w < IDT_ENTRIES implies #[trigger] idt.entries@[w] == match installed_handler(
            handlers,
            w,
        ) {
            Some(h) => if w < 32 + i + 1 || w < 32 {
                gate(kernel_code_selector(), ExceptionType::Interrupt, h)
            } else {
                orig[w]
            },
            None => orig[w],
        } by {
            if w != 32 + i {
                assert(idt.entries@[w] == before[w]);
            } else {
                assert(v.number() == w);
                assert(installed_handler(handlers, w) == Some(handlers.user_defined@[i as int]));
                assert(idt.entries@[w] == gate(ss, it, handlers.user_defined@[i as int]));
            }
        }
        i = i + 1;
    }
}

/// No two neighbouring regions of a merged list continue each other.
pub proof fn lemma_merge_regions_maximal(s: Seq<Region>)
    ensures
        forall|i: int|
            0 <= i < merge_regions(s).len() - 1 ==> !mergeable(
                #[trigger] merge_regions(s)[i],
                merge_regions(s)[i + 1],
            ),
    decreases s.len(),
{
    if s.len() > 0 {
        lemma_merge_regions_maximal(s.drop_last());
        let m = merge_regions(s.drop_last());
        assert forall|i: int| 0 <= i < merge_regions(s).len() - 1 implies !mergeable(
            #[trigger] merge_regions(s)[i],
            merge_regions(s)[i + 1],
        ) by {
            if i + 1 < m.len() {
                assert(!mergeable(m[i], m[i + 1]));
            }
        }
    }
}

/// Merging a list sorted by start keeps it sorted, and no merged region
/// starts after the last region of the input.
pub proof fn lemma_merge_regions_sorted(s: Seq<Region>)
    requires
        sorted_by_start(s),
    ensures
        sorted_by_start(merge_regions(s)),
        merge_regions(s).len() <= s.len(),
        s.len() > 0 ==> merge_regions(s).len() > 0,
        s.len() > 0 ==> forall|i: int|
            0 <= i < merge_regions(s).len() ==> region_start(#[trigger] merge_regions(s)[i])
                <= region_start(s.last()),
    decreases s.len(),
{
    if s.len() > 0 {
        let t = s.drop_last();
        assert(sorted_by_start(t));
        lemma_merge_regions_sorted(t);
        if t.len() > 0 {
            assert(region_start(t.last()) <= region_start(s.last()));
        }
    }
}

/// An empty region at address zero.
fn null_region() -> (r: Region)
    ensures
        r == region(Pa::from_value(0), Pa::from_value(0), false),
{
    Region { addr: Range { start: Pa::zero(), end: Pa::zero() }, usable: false }
}

impl Regions {
    /// Turn the memory map into regions: read every entry, sort the entries
    /// by start address, then merge each entry into the previous region when
    /// it continues it. An empty map gives the one entry that the reader
    /// visits at offset 0.
    pub fn from(mm_info: MemoryMap) -> (r: Regions)
        requires
            mm_info.wf(),
        ensures
            r.wf(),
            mm_info.count() == 0 ==> r@ == seq![mm_info.region_at(0)],
            mm_info.count() > 0 ==> exists|s: Seq<Region>|
                #![trigger merge_regions(s)]
                s.to_multiset() == mm_info.parsed().to_multiset() && sorted_by_start(s) && r@
                    == merge_regions(s),
    {
        let mut regions: Vec<Region> = Vec::new();
        while regions.len() < MAX_REGIONS
            invariant
                regions.len() <= MAX_REGIONS,
            decreases MAX_REGIONS - regions.len(),
        {
            regions.push(null_region());
        }
        let count: usize = mm_info.total_size / (mm_info.stride as usize);
        assert(count == mm_info.count());
        let mut i: usize = 0;
        while i <= count
            invariant
                mm_info.wf(),
                count == mm_info.count(),
                i <= count + 1,
                regions.len() == MAX_REGIONS,
                forall|j: int| 0 <= j < i ==> regions@[j] == mm_info.region_at(j),
            decreases count + 1 - i,
        {
            assert(mm_info.entry_ok(i as int));
            let en = mm_info.read_region(i);
            regions.set(i, en);
            i = i + 1;
        }
        if count == 0 {
            let r = Regions { regions, size: 1 };
            assert(r@ =~= seq![mm_info.region_at(0)]);
            return r;
        }
        assert(regions@.take(count as int) =~= mm_info.parsed());
        sort_prefix_by_start(&mut regions, count);
        let ghost sorted = regions@;
        let mut committed: usize = 0;
        let mut idx: usize = 1;
        proof {
            reveal_with_fuel(merge_regions, 2);
            assert(sorted.take(1).drop_last() =~= Seq::<Region>::empty());
            assert(regions@.take(1) =~= merge_regions(sorted.take(1)));
        }
        while idx < count
            invariant
                1 <= idx <= count < MAX_REGIONS,
                committed < idx,
                regions.len() == MAX_REGIONS,
                sorted.len() == MAX_REGIONS,
                regions@.take(committed + 1) == merge_regions(sorted.take(idx as int)),
                forall|j: int| idx <= j < MAX_REGIONS ==> regions@[j] == sorted[j],
            decreases count - idx,
        {
            let ghost m = regions@.take(committed + 1);
            assert(sorted.take(idx + 1).drop_last() =~= sorted.take(idx as int));
            assert(m.last() == regions@[committed as int]);
            if regions[committed].addr.end == regions[idx].addr.start && regions[committed].usable
                == regions[idx].usable {
                let merged = Region {
                    addr: Range { start: regions[committed].addr.start, end: regions[idx].addr.end },
                    usable: regions[committed].usable,
                };
                regions.set(committed, merged);
                assert(regions@.take(committed + 1) =~= merge_regions(sorted.take(idx + 1)));
            } else {
                committed = committed + 1;
                if committed != idx {
                    let y = copy_region(&regions[idx]);
                    regions.set(committed, y);
                }
                assert(regions@.take(committed + 1) =~= merge_regions(sorted.take(idx + 1)));
            }
            idx = idx + 1;
        }
        let r = Regions { regions, size: committed + 1 };
        assert(sorted.take(count as int).to_multiset() == mm_info.parsed().to_multiset());
        assert(sorted_by_start(sorted.take(count as int)));
        assert(r@ == merge_regions(sorted.take(count as int)));
        r
    }
}

/// Swapping two elements keeps the multiset of a sequence.
proof fn lemma_swap_multiset(s: Seq<Region>, a: int, b: int)
    requires
        0 <= a < s.len(),
        0 <= b < s.len(),
    ensures
        s.update(a, s[b]).update(b, s[a]).to_multiset() =~= s.to_multiset(),
{
    let t = s.update(a, s[b]);
    vstd::seq_lib::to_multiset_update(s, a, s[b]);
    vstd::seq_lib::to_multiset_update(t, b, s[a]);
    assert(t[b] == s[b]);
    assert(s.to_multiset().count(s[a]) > 0);
}

/// Swap the regions at `a` and `b`.
fn swap_regions(v: &mut Vec<Region>, a: usize, b: usize)
    requires
        a < old(v).len(),
        b < old(v).len(),
    ensures
        final(v)@ == old(v)@.update(a as int, old(v)@[b as int]).update(b as int, old(v)@[a as int]),
{
    let x = copy_region(&v[a]);
    let y = copy_region(&v[b]);
    v.set(a, y);
    v.set(b, x);
}

/// Sort the first `n` regions of `v` by start address (insertion sort).
fn sort_prefix_by_start(v: &mut Vec<Region>, n: usize)
    requires
        n <= old(v).len(),
    ensures
        final(v).len() == old(v).len(),
        final(v)@.take(n as int).to_multiset() == old(v)@.take(n as int).to_multiset(),
        sorted_by_start(final(v)@.take(n as int)),
        final(v)@.skip(n as int) == old(v)@.skip(n as int),
{
    if n == 0 {
        return ;
    }
    let ghost orig = v@;
    let mut i: usize = 1;
    while i < n
        invariant
            1 <= i <= n <= v.len(),
            v.len() == orig.len(),
            v@.take(n as int).to_multiset() == orig.take(n as int).to_multiset(),
            sorted_by_start(v@.take(i as int)),
            v@.skip(n as int) == orig.skip(n as int),
        decreases n - i,
    {
        let mut j: usize = i;
        assert forall|a: int, b: int| 0 <= a < b < i implies region_start(v@[a]) <= region_start(
            v@[b],
        ) by {
            assert(v@.take(i as int)[a] == v@[a] && v@.take(i as int)[b] == v@[b]);
        }
        while j > 0 && v[j - 1].addr.start.into_usize() > v[j].addr.start.into_usize()
            invariant
                j <= i < n <= v.len(),
                v.len() == orig.len(),
                v@.take(n as int).to_multiset() == orig.take(n as int).to_multiset(),
                v@.skip(n as int) == orig.skip(n as int),
                forall|a: int, b: int|
                    0 <= a < b <= i && a != j && b != j ==> region_start(v@[a]) <= region_start(
                        v@[b],
                    ),
                forall|b: int| j < b <= i ==> region_start(v@[j as int]) < region_start(v@[b]),
            decreases j,
        {
            let ghost before = v@;
            swap_regions(v, j - 1, j);
            proof {
                lemma_swap_multiset(before.take(n as int), j - 1, j as int);
                assert(v@.take(n as int) =~= before.take(n as int).update(j - 1, before[j as int]).update(
                    j as int,
                    before[j - 1],
                ));
                assert(v@.skip(n as int) =~= before.skip(n as int));
            }
            j = j - 1;
        }
        assert forall|a: int, b: int| 0 <= a < b < i + 1 implies #[trigger] region_start(
            v@.take(i + 1)[a],
        ) <= #[trigger] region_start(v@.take(i + 1)[b]) by {
            if a == j {
            } else if b == j {
                assert(region_start(v@[a]) <= region_start(v@[j - 1]));
            } else {
            }
        }
        i = i + 1;
    }
}

} // verus!
