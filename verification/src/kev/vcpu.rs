//! Virtual CPU state visible to exit handlers, the decisions of the entry
//! path, and the VM builder.
use vstd::prelude::*;

use crate::kev::vm_control::{
    fit_controls, fitted_controls, PIN_ALL, PROC2_ALL, PROC_ACTIVATE_SECONDARY_CTL, PROC_ALL,
    PROC_INTRWINEXIT,
};
use crate::kev::vmcs::{instruction_error_of, BasicExitReason, Field, InstructionError, Vmcs};
use crate::kev::VmError;
use crate::x86_64::segmentation::{segment_selector, Segment};
use crate::x86_64::RFLAGS_IF;

verus! {

/// Number of words of the pending-interrupt bitmap.
pub const PENDING_WORDS: usize = 4;

/// The state of a virtual CPU that exit handlers see: its id and the
/// pending-interrupt bitmap, one bit per vector.
pub struct GenericVCpuState {
    pub vcpu_id: usize,
    pub pending_interrupts: Vec<u64>,
}

impl GenericVCpuState {
    /// Id of this virtual CPU.
    pub fn id(&self) -> (r: usize)
        ensures
            r == self.vcpu_id,
    {
        self.vcpu_id
    }

    /// Mark vector `vec` pending: its bit is set in its word of the bitmap,
    /// and every vector that was pending stays pending.
    pub fn inject_interrupt(&mut self, vec: u8)
        requires
            old(self).pending_interrupts.len() == PENDING_WORDS,
        ensures
            final(self).vcpu_id == old(self).vcpu_id,
            final(self).pending_interrupts@ == old(self).pending_interrupts@.update(
                vec as int / 64,
                old(self).pending_interrupts@[vec as int / 64] | (1u64 << ((vec % 64) as u64)),
            ),
    {
        let (index, ofs) = (vec / 64, vec % 64);
        let word = self.pending_interrupts[index as usize] | (1u64 << (ofs as u64));
        self.pending_interrupts.set(index as usize, word);
    }

    /// Whether vector `vec` is pending in this state.
    pub open spec fn is_pending(&self, vec: int) -> bool {
        0 <= vec < 256 && (self.pending_interrupts@[vec / 64] >> ((vec % 64) as u64)) & 1 == 1
    }
}

/// Setting bit `b` of `w` sets that bit and leaves every other bit as it was.
proof fn lemma_set_bit(w: u64, b: u64, o: u64)
    by (bit_vector)
    requires
        b < 64,
        o < 64,
    ensures
        ((w | (1u64 << b)) >> b) & 1 == 1,
        o != b ==> ((w | (1u64 << b)) >> o) & 1 == (w >> o) & 1,
{
}

/// Injecting a vector makes it pending and keeps every vector that was
/// pending before; no other vector becomes pending.
pub proof fn lemma_inject_keeps_pending(before: GenericVCpuState, after: GenericVCpuState, vec: u8, other: int)
    requires
        before.pending_interrupts.len() == PENDING_WORDS,
        after.pending_interrupts@ == before.pending_interrupts@.update(
            vec as int / 64,
            before.pending_interrupts@[vec as int / 64] | (1u64 << ((vec % 64) as u64)),
        ),
    ensures
        after.is_pending(vec as int),
        before.is_pending(other) ==> after.is_pending(other),
        other != vec as int ==> (after.is_pending(other) == before.is_pending(other)),
{
    let w: u64 = before.pending_interrupts@[vec as int / 64];
    let b: u64 = (vec % 64) as u64;
    lemma_set_bit(w, b, b);
    if 0 <= other < 256 && other / 64 == vec as int / 64 {
        let o: u64 = (other % 64) as u64;
        lemma_set_bit(w, b, o);
    }
}

/// An MSR and its value, as the VM-exit MSR areas hold them.
#[derive(Copy, Clone, Debug, PartialEq, Eq, Structural)]
pub struct MsrEntry {
    pub msr_index: u32,
    pub rsv: u32,
    pub msr_value: u64,
}

/// What handling an exit leads to.
#[derive(Copy, Clone, Debug, PartialEq, Eq, Structural)]
pub enum VmexitResult {
    /// The virtual CPU continues.
    Resume,
    /// The virtual CPU exited with this code.
    Exited(i32),
    /// An external interrupt came.
    ExtInt(u8),
    /// The virtual CPU was kicked.
    Kicked,
}

/// A virtual machine being built.
#[derive(Copy, Clone, Debug)]
pub struct VmBuilder {
    pub vcpu: usize,
    pub exception_bitmap: u32,
}

impl VmBuilder {
    /// A builder of a machine with `vcpu` virtual CPUs and no exception
    /// exiting.
    pub fn new(vcpu: usize) -> (r: VmBuilder)
        requires
            vcpu > 0,
        ensures
            r.vcpu == vcpu && r.exception_bitmap == 0,
    {
        VmBuilder { vcpu, exception_bitmap: 0 }
    }

    /// Exit on the exceptions whose bits are set in `en`.
    pub fn exception_bitmap(self, en: u32) -> (r: VmBuilder)
        ensures
            r.vcpu == self.vcpu && r.exception_bitmap == en,
    {
        VmBuilder { exception_bitmap: en, ..self }
    }

    /// The setup that comes after the first `done` virtual CPUs were set
    /// up: the bootstrap virtual CPU first, then each application processor
    /// in order of id.
    pub fn next_setup(&self, done: usize) -> (r: BuildStep)
        requires
            done <= self.vcpu,
        ensures
            r == (if done == 0 {
                BuildStep::SetupBsp
            } else if done < self.vcpu {
                BuildStep::SetupAp(done)
            } else {
                BuildStep::Done
            }),
    {
        if done == 0 {
            BuildStep::SetupBsp
        } else if done < self.vcpu {
            BuildStep::SetupAp(done)
        } else {
            BuildStep::Done
        }
    }
}

/// What building a machine does next.
#[derive(Copy, Clone, Debug, PartialEq, Eq, Structural)]
pub enum BuildStep {
    /// Set up the bootstrap virtual CPU (id 0).
    SetupBsp,
    /// Set up the application processor with this id.
    SetupAp(usize),
    /// Every virtual CPU is set up.
    Done,
}

/// The values of the VMX capability MSRs that the control fields are fitted
/// to.
#[derive(Copy, Clone, Debug)]
pub struct VmxCapabilities {
    pub pinbased: u64,
    pub procbased: u64,
    pub procbased2: u64,
    pub exit: u64,
    pub entry: u64,
}

/// The controls a virtual CPU asks for.
#[derive(Copy, Clone, Debug)]
pub struct VmxControls {
    pub pinbased: u32,
    pub procbased: u32,
    pub procbased2: u32,
    pub exit: u32,
    pub entry: u32,
}

/// The host state an exit returns to.
#[derive(Copy, Clone, Debug)]
pub struct HostState {
    pub cr0: u64,
    pub cr4: u64,
    pub cr3: u64,
    /// The core whose task-state segment is loaded.
    pub cpuid: usize,
    pub gdtr_base: u64,
    pub idtr_base: u64,
    pub tr_base: u64,
    /// Where an exit lands.
    pub rip: u64,
}

/// The secondary controls can be activated under these capabilities.
pub open spec fn secondary_supported(caps: VmxCapabilities) -> bool {
    ((caps.procbased >> 32u64) as u32) & PROC_ACTIVATE_SECONDARY_CTL != 0
}

/// The fields written to prepare a virtual CPU, in order: the controls
/// fitted to the capabilities, the exception bitmap, then the host state.
pub open spec fn vcpu_init_fields(
    caps: VmxCapabilities,
    wanted: VmxControls,
    exception_bitmap: u32,
    host: HostState,
) -> Seq<(Field, u64)> {
    let data = segment_selector(Segment::KernelData, host.cpuid) as u64;
    seq![
        (Field::PinBasedExecControls, fitted_controls(caps.pinbased, wanted.pinbased, PIN_ALL) as u64),
        (
            Field::ProcessorBasedVmexecControls,
            fitted_controls(
                caps.procbased,
                wanted.procbased | PROC_ACTIVATE_SECONDARY_CTL,
                PROC_ALL,
            ) as u64,
        ),
        (
            Field::SecondaryVmexecControls,
            fitted_controls(caps.procbased2, wanted.procbased2, PROC2_ALL) as u64,
        ),
        (Field::VmexitControls, fitted_controls(caps.exit, wanted.exit, 0) as u64),
        (Field::VmentryControls, fitted_controls(caps.entry, wanted.entry, 0) as u64),
        (Field::ExceptionBitmap, exception_bitmap as u64),
        (Field::HostCr0, host.cr0),
        (Field::HostCr4, host.cr4),
        (Field::HostCr3, host.cr3),
        (Field::HostEsSelector, data),
        (Field::HostSsSelector, data),
        (Field::HostDsSelector, data),
        (Field::HostFsSelector, data),
        (Field::HostGsSelector, data),
        (Field::HostCsSelector, segment_selector(Segment::KernelCode, host.cpuid) as u64),
        (Field::HostTrSelector, segment_selector(Segment::Tss, host.cpuid) as u64),
        (Field::HostGdtrBase, host.gdtr_base),
        (Field::HostIdtrBase, host.idtr_base),
        (Field::HostFsBase, 0u64),
        (Field::HostGsBase, 0u64),
        (Field::HostTrBase, host.tr_base),
        (Field::HostRip, host.rip),
    ]
}

/// The VMCS writes that prepare a virtual CPU before its guest state is set
/// up (see [`vcpu_init_fields`]). The secondary controls must be supported.
pub fn init_vcpu_fields(
    caps: &VmxCapabilities,
    wanted: &VmxControls,
    exception_bitmap: u32,
    host: &HostState,
) -> (r: Vec<(Field, u64)>)
    requires
        secondary_supported(*caps),
        5 + 2 * (host.cpuid as u16) <= u16::MAX,
    ensures
        r@ == vcpu_init_fields(*caps, *wanted, exception_bitmap, *host),
{
    let mut r: Vec<(Field, u64)> = Vec::new();
    r.push((Field::PinBasedExecControls, fit_controls(caps.pinbased, wanted.pinbased, PIN_ALL) as u64));
    r.push(
        (
            Field::ProcessorBasedVmexecControls,
            fit_controls(caps.procbased, wanted.procbased | PROC_ACTIVATE_SECONDARY_CTL, PROC_ALL)
                as u64,
        ),
    );
    r.push(
        (
            Field::SecondaryVmexecControls,
            fit_controls(caps.procbased2, wanted.procbased2, PROC2_ALL) as u64,
        ),
    );
    r.push((Field::VmexitControls, fit_controls(caps.exit, wanted.exit, 0) as u64));
    r.push((Field::VmentryControls, fit_controls(caps.entry, wanted.entry, 0) as u64));
    r.push((Field::ExceptionBitmap, exception_bitmap as u64));
    r.push((Field::HostCr0, host.cr0));
    r.push((Field::HostCr4, host.cr4));
    r.push((Field::HostCr3, host.cr3));
    let data = Segment::KernelData.into_selector(host.cpuid).pack() as u64;
    r.push((Field::HostEsSelector, data));
    r.push((Field::HostSsSelector, data));
    r.push((Field::HostDsSelector, data));
    r.push((Field::HostFsSelector, data));
    r.push((Field::HostGsSelector, data));
    r.push((Field::HostCsSelector, Segment::KernelCode.into_selector(host.cpuid).pack() as u64));
    r.push((Field::HostTrSelector, Segment::Tss.into_selector(host.cpuid).pack() as u64));
    r.push((Field::HostGdtrBase, host.gdtr_base));
    r.push((Field::HostIdtrBase, host.idtr_base));
    r.push((Field::HostFsBase, 0u64));
    r.push((Field::HostGsBase, 0u64));
    r.push((Field::HostTrBase, host.tr_base));
    r.push((Field::HostRip, host.rip));
    assert(r@ =~= vcpu_init_fields(*caps, *wanted, exception_bitmap, *host));
    r
}

/// What the entry path does about pending interrupts.
#[derive(Copy, Clone, Debug, PartialEq, Eq, Structural)]
pub enum InjectAction {
    /// Nothing is pending.
    Nothing,
    /// Deliver an interrupt: word `index` of the bitmap becomes `word` and
    /// the entry interruption-information field becomes `info`.
    Inject { index: usize, word: u64, info: u64 },
    /// The guest does not take interrupts now: the primary processor-based
    /// controls become `controls`, so that the guest exits once it does.
    OpenWindow { controls: u64 },
}

/// Entry interruption information delivering external interrupt `vector`.
pub open spec fn injection_info(vector: int) -> u64 {
    (vector as u64) | 0x8000_0000u64
}

/// The primary processor-based controls `controls` with interrupt-window
/// exiting set.
pub open spec fn window_opened(controls: u64) -> u64 {
    ((controls as u32) | PROC_INTRWINEXIT) as u64
}

/// The primary processor-based controls `controls` with interrupt-window
/// exiting cleared.
pub open spec fn window_closed(controls: u64) -> u64 {
    ((controls as u32) & !PROC_INTRWINEXIT) as u64
}

/// Decide what to do about the pending-interrupt bitmap `pending` before
/// entering a guest whose flags are `guest_rflags` and whose primary
/// processor-based controls are `controls`: the first non-zero word is
/// served, by delivering its lowest vector if the guest takes interrupts,
/// or else by asking for an exit once it does.
pub fn pending_injection(pending: &Vec<u64>, guest_rflags: u64, controls: u64) -> (r: InjectAction)
    requires
        pending.len() <= PENDING_WORDS,
    ensures
        r is Nothing <==> (forall|k: int| 0 <= k < pending.len() ==> pending@[k] == 0),
        r is Inject ==> {
            let i = r->index as int;
            let v = pending@[i];
            &&& guest_rflags & RFLAGS_IF != 0
            &&& 0 <= i < pending.len() && v != 0
            &&& forall|k: int| 0 <= k < i ==> pending@[k] == 0
            &&& r->word == v & !(1u64 << v.trailing_zeros())
            &&& r->info == injection_info(i * 64 + v.trailing_zeros())
        },
        r is OpenWindow ==> guest_rflags & RFLAGS_IF == 0 && r->controls == window_opened(controls),
        !(r is Nothing) ==> (r is Inject <==> guest_rflags & RFLAGS_IF != 0),
{
    let mut index: usize = 0;
    while index < pending.len()
        invariant
            index <= pending.len() <= PENDING_WORDS,
            forall|k: int| 0 <= k < index ==> pending@[k] == 0,
        decreases pending.len() - index,
    {
        let v = pending[index];
        if v != 0 {
            if guest_rflags & RFLAGS_IF != 0 {
                let ofs = v.trailing_zeros();
                proof {
                    vstd::std_specs::bits::axiom_u64_trailing_zeros(v);
                }
                let word = v & !(1u64 << ofs);
                let info = ((index * 64 + ofs as usize) as u64) | 0x8000_0000u64;
                return InjectAction::Inject { index, word, info };
            } else {
                return InjectAction::OpenWindow { controls: ((controls as u32) | PROC_INTRWINEXIT) as u64 };
            }
        }
        index = index + 1;
    }
    InjectAction::Nothing
}

/// What the exit path does after an exit for `reason`, the primary
/// processor-based controls being `controls`.
#[derive(Copy, Clone, Debug, PartialEq, Eq, Structural)]
pub enum ExitAction {
    /// Leave the run loop with this result.
    Return(VmexitResult),
    /// The guest can take interrupts again: the controls become `controls`
    /// and the guest is entered again.
    CloseWindow { controls: u64 },
    /// The exit goes to the virtual CPU's own handler.
    Handle,
}

/// Decide how an exit for `reason` is handled: an acknowledged external
/// interrupt leaves the run loop, an interrupt-window exit closes the window,
/// anything else goes to the handler.
pub fn exit_action(reason: &BasicExitReason, controls: u64) -> (r: ExitAction)
    ensures
        r == match *reason {
            BasicExitReason::ExternalInt(Some(info)) => ExitAction::Return(
                VmexitResult::ExtInt(info.host_int),
            ),
            BasicExitReason::InterruptWindow => ExitAction::CloseWindow {
                controls: window_closed(controls),
            },
            _ => ExitAction::Handle,
        },
{
    match reason {
        BasicExitReason::ExternalInt(Some(info)) => ExitAction::Return(
            VmexitResult::ExtInt(info.host_int),
        ),
        BasicExitReason::InterruptWindow => ExitAction::CloseWindow {
            controls: ((controls as u32) & !PROC_INTRWINEXIT) as u64,
        },
        _ => ExitAction::Handle,
    }
}

/// What the run loop of a virtual CPU learned from its last step.
pub enum RunEvent {
    /// The pending interrupts were served; whether the virtual CPU was kicked.
    Injected { kicked: bool },
    /// The guest was entered; the code of the entry instruction (0 after an
    /// exit, 1 or 2 when the entry failed).
    Launched(i8),
    /// After a failed entry, the VM-instruction error field (`None` when it
    /// could not be read).
    FailureRead(Option<u64>),
    /// The exit path's result; `Ok(Resume)` when the guest is to continue.
    Handled(Result<VmexitResult, VmError>),
}

/// What the run loop of a virtual CPU does next.
pub enum RunStep {
    /// Enter the guest.
    Enter,
    /// Read the exit and take the exit path.
    HandleExit,
    /// Read the VM-instruction error field of the failed entry.
    ReadFailure,
    /// Serve the pending interrupts again, then enter again.
    Continue,
    /// Leave the run loop with this result.
    Return(Result<VmexitResult, VmError>),
}

/// The next step of the run loop after `event`: a kicked virtual CPU leaves
/// before entering the guest, an exit is handled, a failed entry leaves with
/// the instruction error, and a handled exit either continues or leaves with
/// its result.
pub fn run_step(event: RunEvent) -> (r: RunStep)
    requires
        event matches RunEvent::Launched(code) ==> 0 <= code <= 2,
    ensures
        r == match event {
            RunEvent::Injected { kicked } => if kicked {
                RunStep::Return(Ok(VmexitResult::Kicked))
            } else {
                RunStep::Enter
            },
            RunEvent::Launched(code) => if code == 0 {
                RunStep::HandleExit
            } else {
                RunStep::ReadFailure
            },
            RunEvent::FailureRead(v) => RunStep::Return(
                Err(
                    VmError::VmxOperationError(
                        match v {
                            None => InstructionError::Unknown,
                            Some(x) => instruction_error_of(x),
                        },
                    ),
                ),
            ),
            RunEvent::Handled(res) => if res == Ok::<VmexitResult, VmError>(VmexitResult::Resume) {
                RunStep::Continue
            } else {
                RunStep::Return(res)
            },
        },
{
    match event {
        RunEvent::Injected { kicked } => {
            if kicked {
                RunStep::Return(Ok(VmexitResult::Kicked))
            } else {
                RunStep::Enter
            }
        },
        RunEvent::Launched(code) => {
            if code == 0 {
                RunStep::HandleExit
            } else {
                RunStep::ReadFailure
            }
        },
        RunEvent::FailureRead(v) => RunStep::Return(
            Err(VmError::VmxOperationError(Vmcs::instruction_error(v))),
        ),
        RunEvent::Handled(res) => {
            match res {
                Ok(VmexitResult::Resume) => RunStep::Continue,
                _ => RunStep::Return(res),
            }
        },
    }
}

} // verus!
