//! The capabilities list of a function.
use vstd::prelude::*;
use super::PciAccessor;
use super::header::PciHeader;
use super::x86_config::config_address;

verus! {

/// A capability of a function, at offset `base` of its header.
#[derive(Copy, Clone, Debug, PartialEq, Eq, Structural)]
pub struct Capability {
    pub base: u8,
    pub pci_header: PciHeader,
}

impl Capability {
    /// The accessor of the capability's vendor byte.
    pub fn vendor(&self) -> (r: PciAccessor)
        ensures
            r.addr == config_address(
                self.pci_header.pci_device.bus,
                self.pci_header.pci_device.device,
                self.pci_header.function,
                self.base,
            ),
    {
        self.pci_header.accessor(self.base)
    }

    /// The accessor of the register `offset` bytes into the capability.
    pub fn offset(&self, offset: u8) -> (r: PciAccessor)
        requires
            self.base + offset <= u8::MAX,
        ensures
            r.addr == config_address(
                self.pci_header.pci_device.bus,
                self.pci_header.pci_device.device,
                self.pci_header.function,
                (self.base + offset) as u8,
            ),
    {
        PciAccessor::new(
            self.pci_header.pci_device.bus,
            self.pci_header.pci_device.device,
            self.pci_header.function,
            self.base + offset,
        )
    }
}

/// The capabilities still to visit: `next` is the offset of the next one,
/// zero at the end.
#[derive(Copy, Clone, Debug)]
pub struct CapabilityIterator {
    pub next: u8,
    pub pci_header: PciHeader,
}

impl CapabilityIterator {
    /// The accessor of the link byte of the next capability, if any.
    pub fn link(&self) -> (r: Option<PciAccessor>)
        ensures
            r is Some <==> self.next != 0 && self.next < u8::MAX,
    {
        if self.next != 0 && self.next < u8::MAX {
            Some(self.pci_header.accessor(self.next + 1))
        } else {
            None
        }
    }

    /// Visit the next capability, whose link byte is `link`.
    pub fn next(&mut self, link: u8) -> (r: Option<Capability>)
        ensures
            final(self).pci_header == old(self).pci_header,
            r is Some <==> old(self).next != 0,
            r is Some ==> r->0 == (Capability { base: old(self).next, pci_header: old(self).pci_header })
                && final(self).next == link,
            r is None ==> final(self).next == 0,
    {
        if self.next != 0 {
            let cur = self.next;
            self.next = link;
            Some(Capability { base: cur, pci_header: self.pci_header })
        } else {
            None
        }
    }
}

/// MSI-X enabled.
pub const MSIX_ENABLED: u16 = 0x8000;
/// MSI-X function mask.
pub const MSIX_FUNCTION_MASK: u16 = 0x4000;

/// The message control register of an MSI-X capability.
#[derive(Copy, Clone, Debug)]
pub struct MessageControl {
    pub accessor: PciAccessor,
}

impl MessageControl {
    /// The control bits, from the word read.
    pub fn get(&self, word: u16) -> (r: u16)
        ensures
            r == word & (MSIX_ENABLED | MSIX_FUNCTION_MASK),
    {
        word & (MSIX_ENABLED | MSIX_FUNCTION_MASK)
    }

    /// The word to write so that the control bits become `ctrl`, from the
    /// word read.
    pub fn set(&self, word: u16, ctrl: u16) -> (r: u16)
        ensures
            r == (word & !(MSIX_ENABLED | MSIX_FUNCTION_MASK)) | ctrl,
    {
        (word & !(MSIX_ENABLED | MSIX_FUNCTION_MASK)) | ctrl
    }
}

} // verus!
