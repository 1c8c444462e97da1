//! Devices: memory-mapped areas and the PCI bus.
use vstd::prelude::*;

pub mod mmio;
pub mod pci;

verus! {

/// A device failure, with its reason.
#[derive(Debug)]
pub struct DeviceError(pub &'static str);

} // verus!
