//! VMX capability MSRs and the bits of the VM-execution, exit and entry
//! controls.
use vstd::prelude::*;

verus! {

/// MSR - IA32_VMX_BASIC.
pub const IA32_VMX_BASIC: u32 = 0x480;
/// MSR - IA32_VMX_PINBASED_CTLS.
pub const IA32_VMX_PINBASED_CTLS: u32 = 0x481;
/// MSR - IA32_VMX_PROC_BASED_CTLS.
pub const IA32_VMX_PROC_BASED_CTLS: u32 = 0x482;
/// MSR - IA32_VMX_EXIT_CTLS.
pub const IA32_VMX_EXIT_CTLS: u32 = 0x483;
/// MSR - IA32_VMX_ENTRY_CTLS.
pub const IA32_VMX_ENTRY_CTLS: u32 = 0x484;
/// MSR - IA32_VMX_PROC_BASED_CTLS2.
pub const IA32_VMX_PROC_BASED_CTLS2: u32 = 0x48B;

/// Pin-based control: external interrupts cause exits.
pub const PIN_EXTERNAL_INTERRUPT_EXITING: u32 = 0x1;
/// Every pin-based control this crate names.
pub const PIN_ALL: u32 = 0xe9;

/// Primary processor-based control: exit as soon as the guest can take an
/// interrupt.
pub const PROC_INTRWINEXIT: u32 = 0x4;
/// Primary processor-based control: HLT exits.
pub const PROC_HLT_EXITING: u32 = 0x80;
/// Primary processor-based control: the secondary controls are used.
pub const PROC_ACTIVATE_SECONDARY_CTL: u32 = 0x8000_0000;
/// Every primary processor-based control this crate names.
pub const PROC_ALL: u32 = 0xfbfb_9e8c;

/// Secondary processor-based control: EPT is enabled.
pub const PROC2_ENABLE_EPT: u32 = 0x2;
/// Secondary processor-based control: the guest may run in real mode.
pub const PROC2_UNRESTRICTED_GUEST: u32 = 0x80;
/// Every secondary processor-based control this crate names.
pub const PROC2_ALL: u32 = 0x1fdf_f7ff;

/// Exit control: the host runs in 64-bit mode after an exit.
pub const EXIT_HOST_ADDRESS_SPACE_SIZE: u32 = 0x200;
/// Exit control: the interrupt is acknowledged on exit.
pub const EXIT_ACK_INTR_ON_EXIT: u32 = 0x8000;

/// Entry control: the guest runs in IA-32e mode after entry.
pub const ENTRY_IA32E_MODE_GUEST: u32 = 0x200;

/// The value of a control field fitted to its capability MSR `cap`: the
/// default bits of the low half, with the bits this crate names (`named`)
/// cleared, then the `wanted` bits, all kept only where the high half
/// allows a one.
pub open spec fn fitted_controls(cap: u64, wanted: u32, named: u32) -> u32 {
    (((cap as u32) & !named) | wanted) & ((cap >> 32u64) as u32)
}

/// Fit the `wanted` controls to the capability MSR `cap` (see
/// [`fitted_controls`]).
pub fn fit_controls(cap: u64, wanted: u32, named: u32) -> (r: u32)
    ensures
        r == fitted_controls(cap, wanted, named),
{
    let supported = (cap >> 32u64) as u32;
    let enabled = ((cap as u32) & !named) | wanted;
    enabled & supported
}

} // verus!
