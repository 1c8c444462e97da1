//! PCI discovery and configuration-space decoding. Reading and writing the
//! configuration space is port I/O, done by the caller: the functions here
//! take the dwords that were read and give the dwords to write.
use vstd::prelude::*;
use core::ops::Range;

pub mod bar;
pub mod cap;
pub mod header;
pub mod virtio;
pub mod x86_config;

use header::PciHeader;
use x86_config::{config_address, dword_shift, X86Config};

verus! {

/// A device slot on a bus.
#[derive(Copy, Clone, Debug, PartialEq, Eq, Structural)]
pub struct PciDevice {
    pub bus: u8,
    pub device: u8,
}

/// Vendor id of an empty slot or function.
pub const NO_VENDOR: u16 = 0xffff;

impl PciDevice {
    /// The functions to examine, given the header type of function 0: all
    /// eight for a multi-function device, else only function 0.
    pub fn functions(&self, header_type: u8) -> (r: PciDeviceFunctionIterator)
        ensures
            r.pci_device == *self,
            r.function.start == 0,
            r.function.end == (if header_type & 0x80 == 0x80 {
                8u8
            } else {
                1u8
            }),
    {
        if header_type & 0x80 == 0x80 {
            PciDeviceFunctionIterator { pci_device: *self, function: Range { start: 0, end: 8 } }
        } else {
            PciDeviceFunctionIterator { pci_device: *self, function: Range { start: 0, end: 1 } }
        }
    }
}

/// The functions of a device still to examine.
pub struct PciDeviceFunctionIterator {
    pub pci_device: PciDevice,
    pub function: Range<u8>,
}

/// The header of a function whose header type (low seven bits) is `ty`.
pub open spec fn header_of(dev: PciDevice, function: u8, ty: u8) -> PciDeviceHeader {
    let h = PciHeader { pci_device: dev, function };
    if ty == 0 {
        PciDeviceHeader::Type0(h)
    } else if ty == 1 {
        PciDeviceHeader::Type1(h)
    } else {
        PciDeviceHeader::Type2(h)
    }
}

impl PciDeviceFunctionIterator {
    /// The function that `next` examines, if any is left.
    pub fn peek(&self) -> (r: Option<u8>)
        ensures
            r is Some <==> self.function.start < self.function.end,
            r is Some ==> r->0 == self.function.start,
    {
        if self.function.start < self.function.end {
            Some(self.function.start)
        } else {
            None
        }
    }

    /// Examine the next function, whose vendor id and header type are
    /// given: move past it, and give its header when a device answers.
    pub fn next(&mut self, vendor_id: u16, header_type: u8) -> (r: Option<PciDeviceHeader>)
        requires
            old(self).function.start < old(self).function.end,
            vendor_id != NO_VENDOR ==> header_type & 0x7f <= 2,
        ensures
            final(self).pci_device == old(self).pci_device,
            final(self).function.start == old(self).function.start + 1,
            final(self).function.end == old(self).function.end,
            r is None <==> vendor_id == NO_VENDOR,
            r is Some ==> r->0 == header_of(
                old(self).pci_device,
                old(self).function.start,
                header_type & 0x7f,
            ),
    {
        let function = self.function.start;
        self.function.start = function + 1;
        if vendor_id == NO_VENDOR {
            return None;
        }
        let h = PciHeader { pci_device: self.pci_device, function };
        let ty = header_type & 0x7f;
        if ty == 0 {
            Some(PciDeviceHeader::Type0(h))
        } else if ty == 1 {
            Some(PciDeviceHeader::Type1(h))
        } else {
            Some(PciDeviceHeader::Type2(h))
        }
    }
}

/// The widest access, in bytes, that a register at `offset` allows.
pub open spec fn max_access_of(offset: u8) -> u32 {
    if offset < 253 {
        4
    } else if offset < 255 {
        2
    } else {
        1
    }
}

/// Access to one configuration register of a function.
#[derive(Copy, Clone, Debug)]
pub struct PciAccessor {
    pub addr: usize,
    pub max_access: u32,
}

impl PciAccessor {
    /// The accessor of register `offset` of a function.
    pub fn new(bus: u8, slot: u8, func: u8, offset: u8) -> (r: PciAccessor)
        ensures
            r.addr == config_address(bus, slot, func, offset),
            r.max_access == max_access_of(offset),
    {
        PciAccessor {
            addr: X86Config.make_address(bus, slot, func, offset),
            max_access: if offset < 255 - 2 {
                4
            } else if offset < 255 {
                2
            } else {
                1
            },
        }
    }

    /// The value to write to the address port before accessing the register.
    pub fn port_address(&self) -> (r: u32)
        ensures
            r == (self.addr & !3usize) as u32,
    {
        X86Config.port_address(self.addr)
    }

    /// The dword to write so that the byte becomes `v`, from the dword read.
    pub fn write_u8(&self, dword: u32, v: u8) -> (r: u32)
        ensures
            r == (dword & !(0xffu32 << dword_shift(self.addr))) | ((v as u32) << dword_shift(
                self.addr,
            )),
    {
        X86Config.write_u8(self.addr, dword, v)
    }

    /// The dword to write so that the word becomes `v`, from the dword read.
    pub fn write_u16(&self, dword: u32, v: u16) -> (r: u32)
        requires
            self.max_access >= 2,
            self.addr & 3 <= 2,
        ensures
            r == (dword & !(0xffffu32 << dword_shift(self.addr))) | ((v as u32) << dword_shift(
                self.addr,
            )),
    {
        X86Config.write_u16(self.addr, dword, v)
    }

    /// The dword to write so that the register becomes `v`.
    pub fn write_u32(&self, v: u32) -> (r: u32)
        requires
            self.max_access >= 4,
            self.addr & 3 == 0,
        ensures
            r == v,
    {
        X86Config.write_u32(self.addr, v)
    }

    /// The byte of the register, from the dword read.
    pub fn read_u8(&self, dword: u32) -> (r: u8)
        ensures
            r == (dword >> dword_shift(self.addr)) as u8,
    {
        X86Config.read_u8(self.addr, dword)
    }

    /// The word of the register, from the dword read.
    pub fn read_u16(&self, dword: u32) -> (r: u16)
        requires
            self.max_access >= 2,
            self.addr & 3 <= 2,
        ensures
            r == (dword >> dword_shift(self.addr)) as u16,
    {
        X86Config.read_u16(self.addr, dword)
    }

    /// The register, from the dword read.
    pub fn read_u32(&self, dword: u32) -> (r: u32)
        requires
            self.max_access >= 4,
            self.addr & 3 == 0,
        ensures
            r == dword,
    {
        X86Config.read_u32(self.addr, dword)
    }
}

/// The header of a present function, by header type.
#[derive(Copy, Clone, Debug, PartialEq, Eq, Structural)]
pub enum PciDeviceHeader {
    Type0(PciHeader),
    Type1(PciHeader),
    Type2(PciHeader),
}

/// Device and vendor ids.
#[derive(Copy, Clone, Debug, PartialEq, Eq, Structural)]
pub struct DeviceVendor {
    pub dev_id: u16,
    pub vendor_id: u16,
}

/// Vendor id of VirtIO devices.
pub const VIRTIO_VENDOR_ID: u16 = 0x1af4;

/// Device id of a VirtIO block device.
pub const VIRTIO_BLOCK_DEVICE_ID: u16 = 0x1001;

impl DeviceVendor {
    /// Whether the function is a VirtIO block device, the device that the
    /// bus initialization sets up.
    pub fn is_virtio_block(&self) -> (r: bool)
        ensures
            r <==> self.dev_id == VIRTIO_BLOCK_DEVICE_ID && self.vendor_id == VIRTIO_VENDOR_ID,
    {
        self.dev_id == VIRTIO_BLOCK_DEVICE_ID && self.vendor_id == VIRTIO_VENDOR_ID
    }
}

/// Class of a PCI function.
#[derive(Copy, Clone, Debug, PartialEq, Eq, Structural)]
pub enum PciDeviceClass {
    ScsiBusController,
    IdeController,
    EthernetController,
    VgaCompatController,
    HostBridge,
    IsaBridge,
    PciToPciBridge,
    OtherBridge,
    UnknownClass(u8, u8),
}

/// The class named by a base class and a subclass.
pub open spec fn class_of(base: u8, sub: u8) -> PciDeviceClass {
    if base == 1 && sub == 0 {
        PciDeviceClass::ScsiBusController
    } else if base == 1 && sub == 1 {
        PciDeviceClass::IdeController
    } else if base == 2 && sub == 0 {
        PciDeviceClass::EthernetController
    } else if base == 3 && sub == 0 {
        PciDeviceClass::VgaCompatController
    } else if base == 6 && sub == 0 {
        PciDeviceClass::HostBridge
    } else if base == 6 && sub == 1 {
        PciDeviceClass::IsaBridge
    } else if base == 6 && sub == 4 {
        PciDeviceClass::PciToPciBridge
    } else if base == 6 && sub == 0x80 {
        PciDeviceClass::OtherBridge
    } else {
        PciDeviceClass::UnknownClass(base, sub)
    }
}

impl PciDeviceHeader {
    /// The function this header belongs to.
    pub open spec fn spec_header(self) -> PciHeader {
        match self {
            PciDeviceHeader::Type0(h) => h,
            PciDeviceHeader::Type1(h) => h,
            PciDeviceHeader::Type2(h) => h,
        }
    }

    /// The function this header belongs to.
    pub fn header(&self) -> (r: PciHeader)
        ensures
            r == self.spec_header(),
    {
        match self {
            PciDeviceHeader::Type0(h) => *h,
            PciDeviceHeader::Type1(h) => *h,
            PciDeviceHeader::Type2(h) => *h,
        }
    }

    /// Device and vendor ids, from the dword at offset 0.
    pub fn device_vendor(&self, of0: u32) -> (r: DeviceVendor)
        ensures
            r.dev_id == (of0 >> 16u32) as u16,
            r.vendor_id == of0 as u16,
    {
        DeviceVendor { dev_id: (of0 >> 16u32) as u16, vendor_id: of0 as u16 }
    }

    /// The class, from the dword at offset 8.
    pub fn class(&self, of8: u32) -> (r: PciDeviceClass)
        ensures
            r == class_of((of8 >> 24u32) as u8, (of8 >> 16u32) as u8),
    {
        let w = (of8 >> 16u32) as u16;
        let base = (w >> 8u16) as u8;
        let sub = w as u8;
        assert(base == (of8 >> 24u32) as u8 && sub == (of8 >> 16u32) as u8) by (bit_vector)
            requires
                w == (of8 >> 16u32) as u16,
                base == (w >> 8u16) as u8,
                sub == w as u8,
        ;
        if base == 1 && sub == 0 {
            PciDeviceClass::ScsiBusController
        } else if base == 1 && sub == 1 {
            PciDeviceClass::IdeController
        } else if base == 2 && sub == 0 {
            PciDeviceClass::EthernetController
        } else if base == 3 && sub == 0 {
            PciDeviceClass::VgaCompatController
        } else if base == 6 && sub == 0 {
            PciDeviceClass::HostBridge
        } else if base == 6 && sub == 1 {
            PciDeviceClass::IsaBridge
        } else if base == 6 && sub == 4 {
            PciDeviceClass::PciToPciBridge
        } else if base == 6 && sub == 0x80 {
            PciDeviceClass::OtherBridge
        } else {
            PciDeviceClass::UnknownClass(base, sub)
        }
    }

    /// The secondary bus of a bridge, from the word at offset 0x18.
    pub fn get_secondary_bus(&self, of18: u16) -> (r: Option<u8>)
        ensures
            r is Some <==> self is Type1,
            r is Some ==> r->0 == (of18 >> 8u16) as u8,
    {
        match self {
            PciDeviceHeader::Type1(_) => Some((of18 >> 8u16) as u8),
            _ => None,
        }
    }
}

/// Slots still to examine, bus by bus.
pub struct PciIterator {
    pub bus: u16,
    pub device: u8,
    pub max_bus: u16,
}

/// Number of device slots on a bus.
pub const DEVICES_PER_BUS: u8 = 32;

impl PciIterator {
    /// Move to the next slot to examine, if any is left, and give it.
    pub fn peek(&mut self) -> (r: Option<PciDevice>)
        requires
            old(self).max_bus <= 255,
        ensures
            final(self).max_bus == old(self).max_bus,
            r is Some <==> final(self).bus <= final(self).max_bus,
            r is Some ==> final(self).device < DEVICES_PER_BUS && r->0 == (PciDevice {
                bus: final(self).bus as u8,
                device: final(self).device,
            }),
            old(self).bus <= old(self).max_bus && old(self).device >= DEVICES_PER_BUS
                ==> final(self).bus == old(self).bus + 1 && final(self).device == 0,
            !(old(self).bus <= old(self).max_bus && old(self).device >= DEVICES_PER_BUS)
                ==> final(self).bus == old(self).bus && final(self).device == old(self).device,
    {
        if self.bus <= self.max_bus && self.device >= DEVICES_PER_BUS {
            self.device = 0;
            self.bus = self.bus + 1;
        }
        if self.bus <= self.max_bus {
            Some(PciDevice { bus: self.bus as u8, device: self.device })
        } else {
            None
        }
    }

    /// Examine the slot that `peek` gave, whose function 0 has vendor id
    /// `vendor_id`: move past it, and give it when a device answers.
    pub fn next(&mut self, vendor_id: u16) -> (r: Option<PciDevice>)
        requires
            old(self).bus <= old(self).max_bus <= 255,
            old(self).device < DEVICES_PER_BUS,
        ensures
            final(self).bus == old(self).bus,
            final(self).max_bus == old(self).max_bus,
            final(self).device == old(self).device + 1,
            r is None <==> vendor_id == NO_VENDOR,
            r is Some ==> r->0 == (PciDevice { bus: old(self).bus as u8, device: old(self).device }),
    {
        let device = self.device;
        self.device = device + 1;
        if vendor_id != NO_VENDOR {
            Some(PciDevice { bus: self.bus as u8, device })
        } else {
            None
        }
    }
}

/// Examine the slots of one bus.
pub fn scan_bus(bus: u8) -> (r: PciIterator)
    ensures
        r.bus == bus && r.device == 0 && r.max_bus == bus,
{
    PciIterator { bus: bus as u16, device: 0, max_bus: bus as u16 }
}

/// Examine the slots of every bus.
pub fn scan() -> (r: PciIterator)
    ensures
        r.bus == 0 && r.device == 0 && r.max_bus == 255,
{
    PciIterator { bus: 0, device: 0, max_bus: 255 }
}

} // verus!
