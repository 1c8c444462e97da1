use lib::boot::{initialize_idt, IdtHandlers, MemoryMap, MultiBootInfo2, Regions};
use lib::x86_64::table::InterruptDescriptorTable;

fn entry(bytes: &mut Vec<u8>, base: u64, len: u64, ty: u32, stride: usize) {
    let start = bytes.len();
    bytes.extend_from_slice(&base.to_le_bytes());
    bytes.extend_from_slice(&len.to_le_bytes());
    bytes.extend_from_slice(&ty.to_le_bytes());
    while bytes.len() < start + stride {
        bytes.push(0);
    }
}

fn regions_of(r: &Regions) -> Vec<(usize, usize, bool)> {
    r.iter()
        .iter()
        .map(|x| (x.addr.start.into_usize(), x.addr.end.into_usize(), x.usable))
        .collect()
}

#[test]
fn memory_map_sorted_and_merged() {
    let mut bytes = Vec::new();
    entry(&mut bytes, 0x10_0000, 0x10_0000, 1, 24);
    entry(&mut bytes, 0x0, 0x9_f000, 1, 24);
    entry(&mut bytes, 0x20_0000, 0x30_0000, 1, 24);
    entry(&mut bytes, 0x9_f000, 0x6_1000, 2, 24);
    // The entry just past the map, which the reader also visits.
    entry(&mut bytes, 0x0, 0x0, 0, 24);
    let mm = MemoryMap { version: 0, stride: 24, total_size: 4 * 24, entries: bytes };
    let r = Regions::from(mm);
    assert_eq!(r.size, 3);
    assert_eq!(
        regions_of(&r),
        vec![(0x0, 0x9_f000, true), (0x9_f000, 0x10_0000, false), (0x10_0000, 0x50_0000, true)]
    );
}

#[test]
fn memory_map_without_entries_keeps_visited_entry() {
    let mut bytes = Vec::new();
    entry(&mut bytes, 0x1000, 0x2000, 1, 24);
    let mm = MemoryMap { version: 0, stride: 24, total_size: 0, entries: bytes };
    let r = Regions::from(mm);
    assert_eq!(regions_of(&r), vec![(0x1000, 0x3000, true)]);
}

fn tag(bytes: &mut Vec<u8>, ty: u32, body: &[u8]) {
    let size = 8 + body.len() as u32;
    bytes.extend_from_slice(&ty.to_le_bytes());
    bytes.extend_from_slice(&size.to_le_bytes());
    bytes.extend_from_slice(body);
    while bytes.len() % 8 != 0 {
        bytes.push(0);
    }
}

#[test]
fn multiboot_finds_memory_map() {
    let mut fields = Vec::new();
    tag(&mut fields, 1, b"cmdline\0");
    let mut body = Vec::new();
    body.extend_from_slice(&24u32.to_le_bytes());
    body.extend_from_slice(&0u32.to_le_bytes());
    entry(&mut body, 0x0, 0x9_f000, 1, 24);
    entry(&mut body, 0x10_0000, 0x10_0000, 1, 24);
    tag(&mut fields, 6, &body);
    tag(&mut fields, 0, &[]);
    let total = fields.len() as u32;
    let info = MultiBootInfo2 { total_size: total, rev: 0, fields };
    let mm = info.get_memory_map().unwrap();
    assert_eq!(mm.stride, 24);
    assert_eq!(mm.version, 0);
    assert_eq!(mm.total_size, 48);
    assert_eq!(&mm.entries[0..8], &0u64.to_le_bytes());
}

#[test]
fn multiboot_end_tag_first() {
    let mut fields = Vec::new();
    tag(&mut fields, 0, &[]);
    tag(&mut fields, 6, &[0u8; 16]);
    let total = fields.len() as u32;
    let info = MultiBootInfo2 { total_size: total, rev: 0, fields };
    assert!(info.get_memory_map().is_none());
}

#[test]
fn idt_initialization_installs_handlers() {
    let mut idt = InterruptDescriptorTable::empty();
    let handlers = IdtHandlers {
        invalid_opcode: 0x6000,
        double_fault: 0x8000,
        device_not_available: 0x7000,
        general_protection: 0xd000,
        page_fault: 0xe000,
        simd_floating_point_exception: 0x13000,
        user_defined: (0..224u64).map(|i| 0x10_0000 + i * 0x10).collect(),
    };
    initialize_idt(&mut idt, &handlers);
    assert_eq!(idt.entries[14].lo, 0xe000);
    assert_eq!(idt.entries[14].options, 0x8e00);
    assert_eq!(idt.entries[14].selector, 0x8);
    assert_eq!(idt.entries[8].lo, 0x8000);
    assert_eq!(idt.entries[0].options, 0);
    assert_eq!(idt.entries[32].lo, 0x0000);
    assert_eq!(idt.entries[32].mid, 0x10);
    assert_eq!(idt.entries[255].lo, (223 * 0x10) as u16);
}
