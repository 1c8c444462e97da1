use lib::addressing::{Pa, Va};
use lib::mm::slob_allocator::{SlobAllocator, SlobNode};
use lib::mm::{align_up, Arena, ContigPages, Page, PhysicalAllocator};

fn va(v: usize) -> Va {
    Va::new(v).unwrap()
}

fn free_pages(a: &Arena) -> Vec<usize> {
    (0..a.bitmap.len() * 64).filter(|&i| a.bitmap[i / 64] & (1u64 << (i % 64)) != 0).collect()
}

#[test]
fn foster_marks_bitmap_and_tail_used() {
    let mut p = PhysicalAllocator::new();
    let start = 0xffff_ff00_0010_0000usize;
    p.foster(va(start), va(start + 100 * 0x1000));
    assert_eq!(p.max_idx, 1);
    let a = &p.inner[0];
    assert_eq!(a.bitmap.len(), 2);
    assert_eq!(free_pages(a), (1..100).collect::<Vec<_>>());
}

#[test]
fn arena_first_fit_and_free() {
    let mut p = PhysicalAllocator::new();
    let start = 0xffff_ff00_0010_0000usize;
    p.foster(va(start), va(start + 100 * 0x1000));
    let mut a = p.inner.remove(0);
    let before = a.bitmap.clone();
    let got = a.alloc_pages(3, 0).unwrap();
    assert_eq!(got.into_usize(), start + 0x1000);
    let got2 = a.alloc_pages(2, 4).unwrap();
    // The first run of two free pages whose physical page number is a
    // multiple of four.
    assert_eq!(got2.into_usize(), start + 0x4000);
    assert!(a.alloc_pages(200, 0).is_none());
    a.dealloc(got2, 2);
    a.dealloc(got, 3);
    assert_eq!(a.bitmap, before);
}

#[test]
fn contiguous_pages_and_split() {
    let mut p = PhysicalAllocator::new();
    let start = 0xffff_ff00_0010_0000usize;
    p.foster(va(start), va(start + 100 * 0x1000));
    let pages = ContigPages::new(0x2800, &mut p).unwrap();
    assert_eq!(pages.cnt, 3);
    assert_eq!(pages.va().into_usize(), start + 0x1000);
    assert_eq!(pages.pa().into_usize(), 0x10_1000);
    let split = pages.split();
    assert_eq!(split.len(), 3);
    assert_eq!(split[2].va().into_usize(), start + 0x3000);
    let page = Page::new(&mut p).unwrap();
    assert_eq!(page.pa().into_usize(), 0x10_4000);
    assert_eq!(page.into_raw().into_usize(), 0x10_4000);
    assert!(ContigPages::new(0, &mut p).is_none());
}

#[test]
fn align_up_rounds() {
    assert_eq!(align_up(0x1001, 0x1000), 0x2000);
    assert_eq!(align_up(0x1000, 0x1000), 0x1000);
    assert_eq!(align_up(5, 8), 8);
    assert_eq!(align_up(0, 16), 0);
    assert_eq!(align_up(usize::MAX - 0xfff, 0x1000), usize::MAX - 0xfff);
    assert_eq!(align_up(usize::MAX - 0x1fff, 0x1000), usize::MAX - 0x1fff);
}

#[test]
fn slob_layouts() {
    assert_eq!(SlobAllocator::align_to_slob_node(1, 1), (16, 8));
    assert_eq!(SlobAllocator::align_to_slob_node(20, 4), (24, 8));
    assert_eq!(SlobAllocator::align_to_slob_node(20, 32), (32, 32));
}

#[test]
fn slob_first_region_that_fits() {
    let mut s = SlobAllocator::new();
    s.add_free_region(0x1000, 64);
    s.add_free_region(0x2000, 24);
    s.add_free_region(0x3000, 256);
    assert_eq!(s.free[0], SlobNode { start: 0x3000, size: 256 });
    assert_eq!(SlobAllocator::alloc_from_region(&s.free[1], 16, 8), Err(()));
    assert_eq!(SlobAllocator::alloc_from_region(&s.free[1], 24, 8), Ok(0x2000));
    let (node, at) = s.find_region(100, 64).unwrap();
    assert_eq!(node.start_addr(), 0x3000);
    assert_eq!(node.end_addr(), 0x3100);
    assert_eq!(at, 0x3000);
    assert_eq!(s.free.len(), 2);
    let (node, at) = s.find_region(40, 8).unwrap();
    assert_eq!((node.start, at), (0x1000, 0x1000));
    assert!(s.find_region(40, 8).is_none());
    assert_eq!(s.free, vec![SlobNode { start: 0x2000, size: 24 }]);
}

#[test]
fn pages_come_back_to_their_arena() {
    let mut p = PhysicalAllocator::new();
    let first = 0xffff_ff00_0010_0000usize;
    let second = 0xffff_ff00_0100_0000usize;
    p.foster(va(first), va(first + 100 * 0x1000));
    p.foster(va(second), va(second + 100 * 0x1000));
    let before = p.inner[0].bitmap.clone();
    let pages = ContigPages::new(0x3000, &mut p).unwrap();
    assert_eq!(pages.arena_idx, 0);
    assert_ne!(p.inner[0].bitmap, before);
    let at = pages.va();
    // Ownership given up, then taken back from the address.
    let back = ContigPages::from_va(at, 0x3000, &p);
    assert_eq!((back.arena_idx, back.va, back.cnt), (0, at, 3));
    back.release(&mut p);
    assert_eq!(p.inner[0].bitmap, before);
    assert_eq!(p.arena_of(va(second + 0x5000)), 1);
    let page = Page::from_pa(Pa::new(0x100_2000).unwrap(), &p);
    assert_eq!(page.inner.arena_idx, 1);
    assert_eq!(page.va().into_usize(), second + 0x2000);
    assert_eq!(page.inner.cnt, 1);
}
