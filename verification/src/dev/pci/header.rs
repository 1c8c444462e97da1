//! The type-0 configuration header: status, capabilities and base address
//! registers.
use vstd::prelude::*;
use crate::addressing::{Pa, PA_LIMIT};
use super::{PciAccessor, PciDevice};
use super::x86_config::config_address;
use super::bar::{Bar, IoSpace, MemorySpace};
use super::cap::CapabilityIterator;

verus! {

broadcast use crate::addressing::group_pa_value;

/// The status register.
#[derive(Copy, Clone, Debug, PartialEq, Eq, Structural)]
pub struct Status(pub u16);

/// A parity error was detected.
pub const STATUS_DETECTED_PARITY_ERROR: u16 = 0x8000;
/// A system error was signalled.
pub const STATUS_SIGNALLED_SYSTEM_ERROR: u16 = 0x4000;
/// A master abort was received.
pub const STATUS_RECEIVED_MASTER_ABORT: u16 = 0x2000;
/// A target abort was received.
pub const STATUS_RECEIVED_TARGET_ABORT: u16 = 0x1000;
/// A target abort was signalled.
pub const STATUS_SIGNALLED_TARGET_ABORT: u16 = 0x800;
/// DEVSEL timing.
pub const STATUS_DEVSEL_TIMING: u16 = 0x400;
/// Master data parity error.
pub const STATUS_MASTER_DATA_PARITY_ERROR: u16 = 0x200;
/// Fast back-to-back capable.
pub const STATUS_FAST_BACK_TO_BACK_CAPABLE: u16 = 0x100;
/// 66 MHz capable.
pub const STATUS_MHZ66_CAPABLE: u16 = 0x20;
/// The function has a capabilities list.
pub const STATUS_CAPABILITIES_LIST: u16 = 0x10;
/// An interrupt is pending.
pub const STATUS_INTERRUPT_STATUS: u16 = 0x8;
/// Every defined status bit.
pub const STATUS_ALL: u16 = 0xff38;

/// Offset of the status and command register.
pub const OFFSET_STATUS_COMMAND: u8 = 0x4;
/// Offset of the capabilities pointer.
pub const OFFSET_CAPABILITIES: u8 = 0x34;
/// Offset of the first base address register.
pub const OFFSET_BAR0: u8 = 0x10;

/// A function's configuration header.
#[derive(Copy, Clone, Debug, PartialEq, Eq, Structural)]
pub struct PciHeader {
    pub pci_device: PciDevice,
    pub function: u8,
}

/// Whether a memory BAR of type `ty` at `index` has an address this code
/// reads (32-bit, or 64-bit with a next register).
pub open spec fn memory_bar_type_ok(index: u8, ty: u32) -> bool {
    ty == 0 || (ty == 2 && index <= 4)
}

/// The address of a memory BAR of type `ty`, from its register and the next.
pub open spec fn memory_bar_address(bar: u32, ty: u32, upper: u32) -> usize {
    if ty == 0 {
        (bar & !0xfu32) as usize
    } else {
        (((bar & !0xfu32) as u64) | ((upper as u64) << 32u64)) as usize
    }
}

/// The BAR that register values decode to: `bar` as read, `bar_length`
/// as read after writing all ones, `upper` the next register.
pub open spec fn decode_bar(index: u8, bar: u32, bar_length: u32, upper: u32) -> Option<Bar> {
    if index > 5 {
        None
    } else if bar & 1 == 1 {
        Some(Bar::IoSpace(IoSpace { base: bar & !3u32, length: (!(bar_length & !3u32) + 1) as u32 }))
    } else {
        let ty = (bar >> 1u32) & 3;
        let addr = memory_bar_address(bar, ty, upper);
        if memory_bar_type_ok(index, ty) && addr < PA_LIMIT {
            Some(
                Bar::MemorySpace(
                    MemorySpace {
                        base: Pa::from_value(addr),
                        length: (!(bar_length & !0xfu32) + 1) as usize,
                        prefetchable: bar & 8 == 8,
                    },
                ),
            )
        } else {
            None
        }
    }
}

/// Whether decoding does not overflow: a length mask with some bit set.
pub open spec fn bar_decodable(index: u8, bar: u32, bar_length: u32, upper: u32) -> bool {
    index <= 5 ==> if bar & 1 == 1 {
        bar_length & !3u32 != 0
    } else {
        let ty = (bar >> 1u32) & 3;
        memory_bar_type_ok(index, ty) && memory_bar_address(bar, ty, upper) < PA_LIMIT ==> bar_length
            & !0xfu32 != 0
    }
}

/// The complement of a nonzero mask is below the largest `u32`, so adding one
/// to it does not overflow.
proof fn lemma_complement_below_max(m: u32)
    by (bit_vector)
    requires
        m != 0,
    ensures
        !m < 0xffff_ffffu32,
{
}

/// Whether decoding base address register `index` from these register
/// values does not overflow (see [`PciHeader::bar`]).
pub fn is_bar_decodable(index: u8, bar: u32, bar_length: u32, upper: u32) -> (r: bool)
    ensures
        r == bar_decodable(index, bar, bar_length, upper),
{
    if index > 5 {
        return true;
    }
    if bar & 1 == 1 {
        return bar_length & !3u32 != 0;
    }
    let ty = (bar >> 1u32) & 3;
    let ty_ok = ty == 0 || (ty == 2 && index <= 4);
    let addr: usize = if ty == 0 {
        (bar & !0xfu32) as usize
    } else {
        (((bar & !0xfu32) as u64) | ((upper as u64) << 32u64)) as usize
    };
    !(ty_ok && (addr as u64) < PA_LIMIT) || bar_length & !0xfu32 != 0
}

impl PciHeader {
    /// The accessor of register `off` of this function.
    pub fn accessor(&self, off: u8) -> (r: PciAccessor)
        ensures
            r.addr == config_address(self.pci_device.bus, self.pci_device.device, self.function, off),
            r.max_access == super::max_access_of(off),
    {
        PciAccessor::new(self.pci_device.bus, self.pci_device.device, self.function, off)
    }

    /// The status, from the dword at offset 4.
    pub fn status(&self, of4: u32) -> (r: Status)
        ensures
            r.0 == ((of4 >> 16u32) as u16) & STATUS_ALL,
    {
        Status(((of4 >> 16u32) as u16) & STATUS_ALL)
    }

    /// The capabilities, from the dword at offset 4 and the capabilities
    /// pointer: the list is empty unless the status says there is one.
    pub fn capabilities(&self, of4: u32, capabilities_pointer: u8) -> (r: CapabilityIterator)
        ensures
            r.pci_header == *self,
            r.next == (if ((of4 >> 16u32) as u16) & STATUS_CAPABILITIES_LIST
                == STATUS_CAPABILITIES_LIST {
                capabilities_pointer
            } else {
                0
            }),
    {
        let st = self.status(of4);
        let sv = st.0;
        let has_list = sv & STATUS_CAPABILITIES_LIST == STATUS_CAPABILITIES_LIST;
        assert(has_list == (((of4 >> 16u32) as u16) & 0x10u16 == 0x10u16)) by (bit_vector)
            requires
                sv == ((of4 >> 16u32) as u16) & 0xff38u16,
                has_list == (sv & 0x10u16 == 0x10u16),
        ;
        CapabilityIterator { next: if has_list { capabilities_pointer } else { 0 }, pci_header: *self }
    }

    /// Decode base address register `index`: `bar` is its value, `bar_length`
    /// its value after all ones were written to it (the value is then
    /// written back), and `upper` the next register, read for a 64-bit BAR.
    pub fn bar(&self, index: u8, bar: u32, bar_length: u32, upper: u32) -> (r: Option<Bar>)
        requires
            bar_decodable(index, bar, bar_length, upper),
        ensures
            r == decode_bar(index, bar, bar_length, upper),
    {
        if index > 5 {
            return None;
        }
        if bar & 1 == 1 {
            let m = bar_length & !3u32;
            proof {
                lemma_complement_below_max(m);
            }
            Some(Bar::IoSpace(IoSpace { base: bar & !3u32, length: !m + 1 }))
        } else {
            let prefetchable = bar & 8 == 8;
            let ty = (bar >> 1u32) & 3;
            let addr: usize = if ty == 0 {
                (bar & !0xfu32) as usize
            } else if ty == 2 && index <= 4 {
                (((bar & !0xfu32) as u64) | ((upper as u64) << 32u64)) as usize
            } else {
                return None;
            };
            match Pa::new(addr) {
                Some(base) => {
                    let m = bar_length & !0xfu32;
                    proof {
                        lemma_complement_below_max(m);
                    }
                    Some(
                    Bar::MemorySpace(
                        MemorySpace {
                            base,
                            length: (!m + 1) as usize,
                            prefetchable,
                        },
                    ),
                )},
                None => None,
            }
        }
    }
}

} // verus!
