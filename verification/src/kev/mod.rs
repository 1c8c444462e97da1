//! Virtualization: guest addresses, the VMCS, exit decoding, virtual CPUs
//! and the machine that runs them.
use vstd::prelude::*;

pub mod addr;
pub mod decode;
pub mod vcpu;
pub mod vm;
pub mod vm_control;
pub mod vmcs;

use crate::kev::vmcs::InstructionError;

verus! {

/// Why a virtual CPU cannot be found or started.
#[derive(Copy, Clone, Debug, PartialEq, Eq, Structural)]
pub enum VCpuFault {
    /// No virtual CPU has this id.
    NotExists,
    /// The virtual CPU already runs.
    AlreadyStarted,
}

/// Errors of the virtual machine monitor.
#[derive(Copy, Clone, Debug, PartialEq, Eq, Structural)]
pub enum VmError {
    /// A VMX instruction failed with this error.
    VmxOperationError(InstructionError),
    /// A virtual CPU could not be used.
    VCpuError(VCpuFault),
    /// A guest address could not be accessed.
    ControllerError,
}

} // verus!
