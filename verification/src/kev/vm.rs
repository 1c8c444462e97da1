//! The virtual machine: the running state of each virtual CPU, kicking and
//! resuming them, and the machine's exit code.
use vstd::prelude::*;

use crate::kev::vcpu::VmexitResult;
use crate::kev::{VCpuFault, VmError};
use crate::thread::{exit_status_of, JoinHandle, ParkHandle, EXITED};

verus! {

/// The vector of the inter-processor interrupt that kicks a virtual CPU.
pub const IPI_KICK: u8 = 100;

/// Whether a virtual CPU runs.
pub enum VCpuRunningState {
    /// It does not run.
    Halted,
    /// Its thread runs; `have_kicked` asks it to stop.
    Running { handle: JoinHandle, have_kicked: bool },
    /// It stopped on a kick; the handle wakes its thread.
    Kicked(ParkHandle),
}

/// What the kicker does after asking a virtual CPU to stop.
#[derive(Copy, Clone, Debug, PartialEq, Eq, Structural)]
pub enum KickAction {
    /// The virtual CPU did not run: nothing more.
    Ignored,
    /// Send the kick interrupt to core `ipi_cpu` if there is one, then wait
    /// while the virtual CPU still runs.
    Wait { ipi_cpu: Option<usize> },
}

/// What the thread of a virtual CPU does after its run loop returned.
#[derive(Copy, Clone, Debug, PartialEq, Eq, Structural)]
pub enum VCpuThreadAction {
    /// The guest exited with this code: the thread exits with it.
    Exit(i32),
    /// Handle interrupt `vector` on the host; then check for a kick if
    /// `check_kick`, else enter the guest again.
    Irq { vector: u8, check_kick: bool },
    /// Check for a kick.
    CheckKick,
}

/// A virtual machine: the running state of each virtual CPU and the exit
/// code (its top bit set once the machine exited).
pub struct Vm {
    pub vcpu_states: Vec<VCpuRunningState>,
    pub exit_code: u64,
}

/// Starting virtual CPU `id` of a machine with these states fails with
/// this error, if it fails.
pub open spec fn start_error(states: Seq<VCpuRunningState>, id: usize) -> Option<VmError> {
    if id >= states.len() {
        Some(VmError::VCpuError(VCpuFault::NotExists))
    } else if !(states[id as int] is Halted) {
        Some(VmError::VCpuError(VCpuFault::AlreadyStarted))
    } else {
        None
    }
}

impl Vm {
    /// A machine of `vcpu` halted virtual CPUs that has not exited.
    pub fn new(vcpu: usize) -> (r: Vm)
        ensures
            r.vcpu_states.len() == vcpu,
            forall|i: int| 0 <= i < vcpu ==> r.vcpu_states@[i] is Halted,
            r.exit_code == 0,
    {
        let mut vcpu_states: Vec<VCpuRunningState> = Vec::new();
        while vcpu_states.len() < vcpu
            invariant
                vcpu_states.len() <= vcpu,
                forall|i: int| 0 <= i < vcpu_states.len() ==> vcpu_states@[i] is Halted,
            decreases vcpu - vcpu_states.len(),
        {
            vcpu_states.push(VCpuRunningState::Halted);
        }
        Vm { vcpu_states, exit_code: 0 }
    }

    /// Whether virtual CPU `id` can be started: it exists and is halted.
    pub fn check_start(&self, id: usize) -> (r: Result<(), VmError>)
        ensures
            r is Err <==> start_error(self.vcpu_states@, id) is Some,
            r is Err ==> r->Err_0 == start_error(self.vcpu_states@, id)->0,
    {
        if id >= self.vcpu_states.len() {
            Err(VmError::VCpuError(VCpuFault::NotExists))
        } else if !matches!(self.vcpu_states[id], VCpuRunningState::Halted) {
            Err(VmError::VCpuError(VCpuFault::AlreadyStarted))
        } else {
            Ok(())
        }
    }

    /// Mark virtual CPU `id` running on the thread of `handle`, if it exists
    /// and is halted; otherwise nothing changes and the error says why.
    pub fn start_vcpu(&mut self, id: usize, handle: JoinHandle) -> (r: Result<(), VmError>)
        ensures
            r is Err <==> start_error(old(self).vcpu_states@, id) is Some,
            r is Err ==> r->Err_0 == start_error(old(self).vcpu_states@, id)->0,
            r is Err ==> final(self).vcpu_states@ == old(self).vcpu_states@,
            r is Ok ==> final(self).vcpu_states@ == old(self).vcpu_states@.update(
                id as int,
                VCpuRunningState::Running { handle, have_kicked: false },
            ),
            final(self).exit_code == old(self).exit_code,
    {
        match self.check_start(id) {
            Err(e) => Err(e),
            Ok(()) => {
                self.vcpu_states.set(id, VCpuRunningState::Running { handle, have_kicked: false });
                Ok(())
            },
        }
    }

    /// Whether virtual CPU `id` exists and runs.
    pub fn is_running(&self, id: usize) -> (r: bool)
        ensures
            r <==> id < self.vcpu_states.len() && self.vcpu_states@[id as int] is Running,
    {
        id < self.vcpu_states.len() && matches!(self.vcpu_states[id], VCpuRunningState::Running { .. })
    }

    /// Ask virtual CPU `id` to stop. A running one is flagged as kicked, and
    /// the kicker is to interrupt the core its thread runs on; a halted or
    /// kicked one is left alone. There is no such virtual CPU: an error.
    pub fn kick_vcpu(&mut self, id: usize) -> (r: Result<KickAction, VmError>)
        ensures
            r is Err <==> id >= old(self).vcpu_states.len(),
            r is Err ==> r->Err_0 == VmError::VCpuError(VCpuFault::NotExists),
            final(self).exit_code == old(self).exit_code,
            r is Ok ==> match old(self).vcpu_states@[id as int] {
                VCpuRunningState::Running { handle, have_kicked } => {
                    &&& final(self).vcpu_states@ == old(self).vcpu_states@.update(
                        id as int,
                        VCpuRunningState::Running { handle, have_kicked: true },
                    )
                    &&& r->Ok_0 == KickAction::Wait {
                        ipi_cpu: if handle.running_cpu >= 0 {
                            Some(handle.running_cpu as usize)
                        } else {
                            None
                        },
                    }
                },
                _ => final(self).vcpu_states@ == old(self).vcpu_states@ && r->Ok_0
                    == KickAction::Ignored,
            },
            r is Err ==> final(self).vcpu_states@ == old(self).vcpu_states@,
    {
        if id >= self.vcpu_states.len() {
            return Err(VmError::VCpuError(VCpuFault::NotExists));
        }
        let state = self.vcpu_states.remove(id);
        proof {
            assert(old(self).vcpu_states@ =~= self.vcpu_states@.insert(id as int, state));
        }
        let (back, action) = match state {
            VCpuRunningState::Running { handle, have_kicked: _ } => {
                let ipi_cpu = handle.try_get_running_cpu();
                (VCpuRunningState::Running { handle, have_kicked: true }, KickAction::Wait { ipi_cpu })
            },
            other => (other, KickAction::Ignored),
        };
        self.vcpu_states.insert(id, back);
        Ok(action)
    }

    /// Wake virtual CPU `id` after a kick: it becomes halted and the handle
    /// that wakes its thread is returned. There is no such virtual CPU:
    /// nothing happens.
    pub fn resume_vcpu(&mut self, id: usize) -> (r: Option<ParkHandle>)
        requires
            id < old(self).vcpu_states.len() ==> old(self).vcpu_states@[id as int] is Kicked,
        ensures
            r is None <==> id >= old(self).vcpu_states.len(),
            r is None ==> final(self).vcpu_states@ == old(self).vcpu_states@,
            r is Some ==> old(self).vcpu_states@[id as int] == VCpuRunningState::Kicked(r->0),
            r is Some ==> final(self).vcpu_states@ == old(self).vcpu_states@.update(
                id as int,
                VCpuRunningState::Halted,
            ),
            final(self).exit_code == old(self).exit_code,
    {
        if id >= self.vcpu_states.len() {
            return None;
        }
        let state = self.vcpu_states.remove(id);
        self.vcpu_states.insert(id, VCpuRunningState::Halted);
        proof {
            assert(self.vcpu_states@ =~= old(self).vcpu_states@.update(
                id as int,
                VCpuRunningState::Halted,
            ));
        }
        match state {
            VCpuRunningState::Kicked(handle) => Some(handle),
            _ => {
                proof {
                    assert(false);
                }
                None
            },
        }
    }

    /// The thread of virtual CPU `id` checks for a kick: if it was kicked,
    /// the virtual CPU becomes halted and the thread keeps its handle while
    /// it parks; otherwise nothing changes.
    pub fn take_kick(&mut self, id: usize) -> (r: Option<JoinHandle>)
        requires
            id < old(self).vcpu_states.len(),
        ensures
            final(self).exit_code == old(self).exit_code,
            match old(self).vcpu_states@[id as int] {
                VCpuRunningState::Running { handle, have_kicked: true } => {
                    &&& r == Some(handle)
                    &&& final(self).vcpu_states@ == old(self).vcpu_states@.update(
                        id as int,
                        VCpuRunningState::Halted,
                    )
                },
                _ => r is None && final(self).vcpu_states@ == old(self).vcpu_states@,
            },
    {
        let state = self.vcpu_states.remove(id);
        proof {
            assert(old(self).vcpu_states@ =~= self.vcpu_states@.insert(id as int, state));
        }
        match state {
            VCpuRunningState::Running { handle, have_kicked: true } => {
                self.vcpu_states.insert(id, VCpuRunningState::Halted);
                proof {
                    assert(self.vcpu_states@ =~= old(self).vcpu_states@.update(
                        id as int,
                        VCpuRunningState::Halted,
                    ));
                }
                Some(handle)
            },
            other => {
                self.vcpu_states.insert(id, other);
                None
            },
        }
    }

    /// The thread of virtual CPU `id` parks: the virtual CPU is kicked, and
    /// `parked` wakes the thread.
    pub fn park_as(&mut self, id: usize, parked: ParkHandle)
        requires
            id < old(self).vcpu_states.len(),
        ensures
            final(self).vcpu_states@ == old(self).vcpu_states@.update(
                id as int,
                VCpuRunningState::Kicked(parked),
            ),
            final(self).exit_code == old(self).exit_code,
    {
        self.vcpu_states.set(id, VCpuRunningState::Kicked(parked));
    }

    /// The thread of virtual CPU `id` woke up: the virtual CPU runs again on
    /// it, not kicked.
    pub fn end_park(&mut self, id: usize, handle: JoinHandle)
        requires
            id < old(self).vcpu_states.len(),
        ensures
            final(self).vcpu_states@ == old(self).vcpu_states@.update(
                id as int,
                VCpuRunningState::Running { handle, have_kicked: false },
            ),
            final(self).exit_code == old(self).exit_code,
    {
        self.vcpu_states.set(id, VCpuRunningState::Running { handle, have_kicked: false });
    }

    /// The machine exits with `exit_code`.
    pub fn exit(&mut self, exit_code: i32)
        ensures
            final(self).exit_code == exit_status_of(exit_code),
            final(self).vcpu_states@ == old(self).vcpu_states@,
    {
        self.exit_code = EXITED | (exit_code as u64);
    }

    /// The exit code, once the machine exited.
    pub fn exited(&self) -> (r: Option<i32>)
        ensures
            r is Some <==> self.exit_code >= EXITED,
            r is Some ==> r->0 == self.exit_code as i32,
    {
        if self.exit_code >= EXITED {
            Some(self.exit_code as i32)
        } else {
            None
        }
    }

    /// What the thread of a virtual CPU does with the result of its run
    /// loop (which never asks to simply continue).
    pub fn vcpu_thread_work(result: VmexitResult) -> (r: VCpuThreadAction)
        requires
            result != VmexitResult::Resume,
        ensures
            r == thread_action(result),
    {
        match result {
            VmexitResult::Exited(code) => VCpuThreadAction::Exit(code),
            VmexitResult::ExtInt(vector) => VCpuThreadAction::Irq {
                vector,
                check_kick: vector == IPI_KICK,
            },
            _ => VCpuThreadAction::CheckKick,
        }
    }
}

/// What the thread of a virtual CPU does with the run loop's `result`.
pub open spec fn thread_action(result: VmexitResult) -> VCpuThreadAction {
    match result {
        VmexitResult::Exited(code) => VCpuThreadAction::Exit(code),
        VmexitResult::ExtInt(vector) => VCpuThreadAction::Irq { vector, check_kick: vector == IPI_KICK },
        _ => VCpuThreadAction::CheckKick,
    }
}

/// Where the thread of a virtual CPU stands.
#[derive(Copy, Clone, Debug, PartialEq, Eq, Structural)]
pub enum VCpuThreadStage {
    /// Its init callback has not run yet.
    Init,
    /// The virtual CPU runs on it.
    Running,
    /// The guest exited with this code; the thread exits with it.
    Exited(i32),
}

/// What the thread of a virtual CPU hands to its next step.
#[derive(Copy, Clone, Debug, PartialEq, Eq, Structural)]
pub enum VCpuThreadEvent {
    /// The init callback returned.
    Initialized,
    /// The run loop returned this result.
    Returned(VmexitResult),
}

/// What the thread of a virtual CPU does next.
#[derive(Copy, Clone, Debug, PartialEq, Eq, Structural)]
pub enum VCpuThreadStep {
    /// Run the init callback on the virtual CPU.
    RunInit,
    /// Enter the guest through the run loop.
    Enter,
    /// Act on a result of the run loop.
    Act(VCpuThreadAction),
}

/// The thread of virtual CPU `id`: the init callback runs once, before the
/// first entry; the thread exits with the first exit code the guest reports.
#[derive(Copy, Clone, Debug)]
pub struct VCpuThread {
    pub id: usize,
    pub stage: VCpuThreadStage,
}

impl VCpuThread {
    /// The thread of virtual CPU `id`, before anything ran; its first step
    /// runs the init callback.
    pub fn new(id: usize) -> (r: (VCpuThread, VCpuThreadStep))
        ensures
            r.0.id == id,
            r.0.stage == VCpuThreadStage::Init,
            r.1 == VCpuThreadStep::RunInit,
    {
        (VCpuThread { id, stage: VCpuThreadStage::Init }, VCpuThreadStep::RunInit)
    }

    /// The next step after `event`. The init callback must have left the
    /// virtual CPU running in `vm`; a thread whose guest exited takes no
    /// more steps.
    pub fn step(&mut self, vm: &Vm, event: VCpuThreadEvent) -> (r: VCpuThreadStep)
        requires
            !(old(self).stage is Exited),
            event == VCpuThreadEvent::Initialized ==> old(self).stage == VCpuThreadStage::Init
                && old(self).id < vm.vcpu_states.len() && vm.vcpu_states@[old(self).id as int] is Running,
            event matches VCpuThreadEvent::Returned(res) ==> old(self).stage == VCpuThreadStage::Running
                && res != VmexitResult::Resume,
        ensures
            final(self).id == old(self).id,
            match event {
                VCpuThreadEvent::Initialized => r == VCpuThreadStep::Enter && final(self).stage
                    == VCpuThreadStage::Running,
                VCpuThreadEvent::Returned(res) => r == VCpuThreadStep::Act(thread_action(res))
                    && final(self).stage == match res {
                    VmexitResult::Exited(code) => VCpuThreadStage::Exited(code),
                    _ => VCpuThreadStage::Running,
                },
            },
    {
        match event {
            VCpuThreadEvent::Initialized => {
                self.stage = VCpuThreadStage::Running;
                VCpuThreadStep::Enter
            },
            VCpuThreadEvent::Returned(res) => {
                let action = Vm::vcpu_thread_work(res);
                if let VmexitResult::Exited(code) = res {
                    self.stage = VCpuThreadStage::Exited(code);
                }
                VCpuThreadStep::Act(action)
            },
        }
    }
}

/// The handle that owns a virtual machine.
pub struct VmHandle {
    pub vm: Vm,
}

impl VmHandle {
    /// A handle of a new machine of `vcpu` halted virtual CPUs.
    pub fn new(vcpu: usize) -> (r: VmHandle)
        ensures
            r.vm.vcpu_states.len() == vcpu,
            forall|i: int| 0 <= i < vcpu ==> r.vm.vcpu_states@[i] is Halted,
            r.vm.exit_code == 0,
    {
        VmHandle { vm: Vm::new(vcpu) }
    }

    /// The exit code of the machine, once it exited (the caller waits until
    /// there is one).
    pub fn join(&self) -> (r: Option<i32>)
        ensures
            r is Some <==> self.vm.exit_code >= EXITED,
            r is Some ==> r->0 == self.vm.exit_code as i32,
    {
        self.vm.exited()
    }

    /// The running state of virtual CPU `idx`, if the machine has it.
    pub fn vcpu(&self, idx: usize) -> (r: Option<&VCpuRunningState>)
        ensures
            r is Some <==> idx < self.vm.vcpu_states.len(),
            r is Some ==> *r->0 == self.vm.vcpu_states@[idx as int],
    {
        if idx < self.vm.vcpu_states.len() {
            Some(&self.vm.vcpu_states[idx])
        } else {
            None
        }
    }

    /// Start the bootstrap virtual CPU on the thread of `handle`.
    pub fn start_bsp(&mut self, handle: JoinHandle) -> (r: Result<(), VmError>)
        ensures
            r is Err <==> start_error(old(self).vm.vcpu_states@, 0) is Some,
            r is Err ==> r->Err_0 == start_error(old(self).vm.vcpu_states@, 0)->0,
            r is Err ==> final(self).vm.vcpu_states@ == old(self).vm.vcpu_states@,
            r is Ok ==> final(self).vm.vcpu_states@ == old(self).vm.vcpu_states@.update(
                0,
                VCpuRunningState::Running { handle, have_kicked: false },
            ),
            final(self).vm.exit_code == old(self).vm.exit_code,
    {
        self.vm.start_vcpu(0, handle)
    }
}

} // verus!
