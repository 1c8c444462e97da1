use lib::addressing::Pa;
use lib::dev::mmio::MmioArea;
use lib::dev::pci::bar::{Bar, IoSpace, MemorySpace};
use lib::dev::pci::header::PciHeader;
use lib::dev::pci::x86_config::X86Config;
use lib::dev::pci::{
    scan, scan_bus, DeviceVendor, PciAccessor, PciDevice, PciDeviceClass, PciDeviceHeader, NO_VENDOR,
};

fn header() -> PciHeader {
    PciHeader { pci_device: PciDevice { bus: 0, device: 3 }, function: 0 }
}

#[test]
fn config_addresses() {
    assert_eq!(X86Config.make_address(1, 2, 3, 0x10), 0x8001_1310);
    let acc = PciAccessor::new(0, 3, 0, 0x0e);
    assert_eq!(acc.max_access, 4);
    assert_eq!(acc.port_address(), 0x8000_180c);
    assert_eq!(acc.read_u16(0xaabb_ccdd), 0xaabb);
    assert_eq!(acc.read_u8(0xaabb_ccdd), 0xbb);
    assert_eq!(PciAccessor::new(0, 0, 0, 0xfe).max_access, 2);
    assert_eq!(PciAccessor::new(0, 0, 0, 0xff).max_access, 1);
}

#[test]
fn config_writes_merge() {
    let acc = PciAccessor::new(0, 0, 0, 0x05);
    assert_eq!(acc.write_u8(0x1122_3344, 0xee), 0x1122_ee44);
    assert_eq!(acc.read_u8(acc.write_u8(0x1122_3344, 0xee)), 0xee);
    let acc = PciAccessor::new(0, 0, 0, 0x06);
    assert_eq!(acc.write_u16(0x1122_3344, 0xbeef), 0xbeef_3344);
    let acc = PciAccessor::new(0, 0, 0, 0x04);
    assert_eq!(acc.write_u32(7), 7);
    assert_eq!(acc.read_u32(9), 9);
}

#[test]
fn device_header_decoding() {
    let h = PciDeviceHeader::Type0(header());
    let dv = h.device_vendor(0x1001_1af4);
    assert_eq!(dv.dev_id, 0x1001);
    assert_eq!(dv.vendor_id, 0x1af4);
    assert_eq!(h.class(0x0601_0000), PciDeviceClass::IsaBridge);
    assert_eq!(h.class(0x0200_0000), PciDeviceClass::EthernetController);
    assert_eq!(h.class(0x0c03_0000), PciDeviceClass::UnknownClass(0x0c, 0x03));
    assert_eq!(h.get_secondary_bus(0x0500), None);
    let bridge = PciDeviceHeader::Type1(header());
    assert_eq!(bridge.get_secondary_bus(0x0500), Some(5));
}

#[test]
fn bar_decoding() {
    let h = header();
    assert_eq!(h.bar(6, 0, 0, 0), None);
    match h.bar(0, 0xc001, 0xffff_ffe1, 0) {
        Some(Bar::IoSpace(io)) => {
            assert_eq!(io.base, 0xc000);
            assert_eq!(io.length, 0x20);
        },
        _ => panic!("expected an I/O BAR"),
    }
    match h.bar(1, 0xfebf_1008, 0xffff_f008, 0) {
        Some(Bar::MemorySpace(m)) => {
            assert_eq!(m.base.into_usize(), 0xfebf_1000);
            assert_eq!(m.length, 0x1000);
            assert!(m.prefetchable);
        },
        _ => panic!("expected a memory BAR"),
    }
    match h.bar(4, 0x0000_000c, 0xffff_c00c, 0x1) {
        Some(Bar::MemorySpace(m)) => {
            assert_eq!(m.base.into_usize(), 0x1_0000_0000);
            assert_eq!(m.length, 0x4000);
        },
        _ => panic!("expected a 64-bit memory BAR"),
    }
    assert_eq!(h.bar(5, 0x0000_000c, 0xffff_c00c, 0x1), None);
    assert_eq!(h.bar(0, 0x2, 0xffff_fff0, 0), None);
}

#[test]
fn status_and_capabilities() {
    let h = header();
    assert_eq!(h.status(0x0010_0000).0, 0x10);
    let mut caps = h.capabilities(0x0010_0000, 0x40);
    assert_eq!(caps.next, 0x40);
    let c = caps.next(0x50).unwrap();
    assert_eq!(c.base, 0x40);
    assert_eq!(caps.next, 0x50);
    assert_eq!(c.offset(4).addr, 0x8000_1844);
    let _ = caps.next(0).unwrap();
    assert!(caps.next(0x60).is_none());
    assert_eq!(h.capabilities(0, 0x40).next, 0);
}

#[test]
fn function_and_slot_iteration() {
    let dev = PciDevice { bus: 0, device: 1 };
    let mut f = dev.functions(0x80);
    assert_eq!(f.function.end, 8);
    assert_eq!(dev.functions(0x00).function.end, 1);
    assert_eq!(f.peek(), Some(0));
    assert!(f.next(NO_VENDOR, 0).is_none());
    assert_eq!(f.peek(), Some(1));
    match f.next(0x8086, 0x81) {
        Some(PciDeviceHeader::Type1(h)) => assert_eq!(h.function, 1),
        _ => panic!("expected a bridge header"),
    }
    let mut it = scan_bus(2);
    assert_eq!(it.peek(), Some(PciDevice { bus: 2, device: 0 }));
    assert!(it.next(NO_VENDOR).is_none());
    assert_eq!(it.next(0x1af4), Some(PciDevice { bus: 2, device: 1 }));
    for _ in 2..32 {
        let _ = it.peek();
        let _ = it.next(NO_VENDOR);
    }
    assert_eq!(it.peek(), None);
    let mut all = scan();
    assert_eq!(all.max_bus, 255);
    assert_eq!(all.peek(), Some(PciDevice { bus: 0, device: 0 }));
}

#[test]
fn windows_split() {
    let m = MemorySpace { base: Pa::new(0x1000).unwrap(), length: 0x100, prefetchable: false };
    let part = m.try_split_mmio_range(0x10, 0x20).unwrap();
    assert_eq!(part.0.start.into_usize(), 0x1010);
    assert_eq!(part.0.end.into_usize(), 0x1030);
    assert!(m.try_split_mmio_range(0x100, 0).is_none());
    assert!(m.try_split_mmio_range(0xf0, 0x20).is_none());
    assert!(m.try_split_mmio_range(1, usize::MAX).is_none());
    let all: MmioArea = m.all();
    assert_eq!(all.size(), 0x100);
    let (a, b) = all.split_at(0x40);
    assert_eq!(a.size(), 0x40);
    assert_eq!(b.0.start.into_usize(), 0x1040);
    let active = b.activate();
    assert_eq!(active.start_end(), (0xffff_ff00_0000_1040, 0xffff_ff00_0000_1100));
    let io = IoSpace { base: 0xc000, length: 0x20 };
    assert_eq!(io.offset(0x10).unwrap().port(), 0xc010);
    assert!(io.offset(0x1e).is_none());
    assert!(io.offset(u32::MAX).is_none());
    assert!(Bar::IoSpace(io).try_get_memory_bar().is_none());
    assert_eq!(Bar::IoSpace(io).try_get_io_bar(), Some(io));
}

#[test]
fn virtio_block_ids() {
    assert!(DeviceVendor { dev_id: 0x1001, vendor_id: 0x1af4 }.is_virtio_block());
    assert!(!DeviceVendor { dev_id: 0x1000, vendor_id: 0x1af4 }.is_virtio_block());
    assert!(!DeviceVendor { dev_id: 0x1001, vendor_id: 0x8086 }.is_virtio_block());
}
