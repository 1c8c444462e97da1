use lib::kev::vcpu::{
    exit_action, init_vcpu_fields, pending_injection, run_step, ExitAction, HostState, InjectAction,
    RunEvent, RunStep, VmexitResult, VmxCapabilities, VmxControls,
};
use lib::kev::vm::{
    KickAction, VCpuRunningState, VCpuThread, VCpuThreadAction, VCpuThreadEvent, VCpuThreadStage,
    VCpuThreadStep, Vm, VmHandle, IPI_KICK,
};
use lib::kev::vmcs::InstructionError;
use lib::kev::vm_control::{fit_controls, PROC_ACTIVATE_SECONDARY_CTL};
use lib::kev::vmcs::{BasicExitReason, ExternalIntInfo, Field, InterruptionType};
use lib::kev::{VCpuFault, VmError};
use lib::thread::{JoinHandle, ParkHandle, Thread};

fn handle(cpu: i32) -> JoinHandle {
    JoinHandle { exit_status: 0, running_cpu: cpu }
}

#[test]
fn start_vcpus() {
    let mut vm = Vm::new(2);
    assert_eq!(vm.vcpu_states.len(), 2);
    assert!(!vm.is_running(0));
    assert_eq!(vm.start_vcpu(0, handle(1)), Ok(()));
    assert!(vm.is_running(0));
    assert_eq!(
        vm.start_vcpu(0, handle(1)),
        Err(VmError::VCpuError(VCpuFault::AlreadyStarted))
    );
    assert_eq!(
        vm.start_vcpu(2, handle(1)),
        Err(VmError::VCpuError(VCpuFault::NotExists))
    );
    assert_eq!(vm.check_start(1), Ok(()));
    let mut h = VmHandle::new(1);
    assert_eq!(h.start_bsp(handle(-1)), Ok(()));
    assert!(h.vm.is_running(0));
}

#[test]
fn kick_park_and_resume() {
    let mut vm = Vm::new(2);
    assert_eq!(vm.kick_vcpu(1), Ok(KickAction::Ignored));
    assert_eq!(
        vm.kick_vcpu(7),
        Err(VmError::VCpuError(VCpuFault::NotExists))
    );
    vm.start_vcpu(1, handle(3)).unwrap();
    // Not kicked yet: the thread goes on.
    assert!(vm.take_kick(1).is_none());
    assert_eq!(vm.kick_vcpu(1), Ok(KickAction::Wait { ipi_cpu: Some(3) }));
    assert!(matches!(
        vm.vcpu_states[1],
        VCpuRunningState::Running { have_kicked: true, .. }
    ));
    let kept = vm.take_kick(1).unwrap();
    assert_eq!(kept.running_cpu, 3);
    assert!(matches!(vm.vcpu_states[1], VCpuRunningState::Halted));
    assert!(!vm.is_running(1));
    vm.park_as(1, ParkHandle::new_for(Thread::new(String::from("vcpu#1"))));
    assert!(matches!(vm.vcpu_states[1], VCpuRunningState::Kicked(_)));
    let woken = vm.resume_vcpu(1).unwrap();
    assert_eq!(woken.th.name, "vcpu#1");
    assert!(matches!(vm.vcpu_states[1], VCpuRunningState::Halted));
    assert!(vm.resume_vcpu(9).is_none());
    vm.end_park(1, kept);
    assert!(matches!(
        vm.vcpu_states[1],
        VCpuRunningState::Running { have_kicked: false, .. }
    ));
    // A thread on no core is kicked without an interrupt.
    let mut vm = Vm::new(1);
    vm.start_vcpu(0, handle(-1)).unwrap();
    assert_eq!(vm.kick_vcpu(0), Ok(KickAction::Wait { ipi_cpu: None }));
}

#[test]
fn exit_then_join() {
    let mut h = VmHandle::new(1);
    assert_eq!(h.join(), None);
    h.vm.exit(-3);
    assert_eq!(h.vm.exit_code, 0x8000_0000_0000_0000 | (-3i32 as u64));
    assert_eq!(h.join(), Some(-3));
    h.vm.exit(42);
    assert_eq!(h.join(), Some(42));
}

#[test]
fn vcpu_thread_actions() {
    assert_eq!(Vm::vcpu_thread_work(VmexitResult::Exited(5)), VCpuThreadAction::Exit(5));
    assert_eq!(
        Vm::vcpu_thread_work(VmexitResult::ExtInt(0x20)),
        VCpuThreadAction::Irq { vector: 0x20, check_kick: false }
    );
    assert_eq!(
        Vm::vcpu_thread_work(VmexitResult::ExtInt(IPI_KICK)),
        VCpuThreadAction::Irq { vector: 100, check_kick: true }
    );
    assert_eq!(Vm::vcpu_thread_work(VmexitResult::Kicked), VCpuThreadAction::CheckKick);
}

#[test]
fn interrupt_injection() {
    let pending = vec![0u64, 0b1000, 0x10, 0];
    assert_eq!(
        pending_injection(&pending, 0x202, 0x8000_0080),
        InjectAction::Inject { index: 1, word: 0, info: (64 + 3) | 0x8000_0000 }
    );
    let pending = vec![0u64, 0, 0b1010_0000, 0];
    assert_eq!(
        pending_injection(&pending, 0x202, 0),
        InjectAction::Inject { index: 2, word: 0b1000_0000, info: (128 + 5) | 0x8000_0000 }
    );
    assert_eq!(
        pending_injection(&pending, 0x2, 0xffff_ffff_8000_0080),
        InjectAction::OpenWindow { controls: 0x8000_0084 }
    );
    assert_eq!(pending_injection(&vec![0u64; 4], 0x202, 0), InjectAction::Nothing);
}

#[test]
fn exit_actions() {
    let info = ExternalIntInfo {
        host_int: 0x21,
        interruption_type: InterruptionType::ExternalInt,
        error_code_valid: false,
        nmi_unblocked_by_iret: false,
    };
    assert_eq!(
        exit_action(&BasicExitReason::ExternalInt(Some(info)), 0),
        ExitAction::Return(VmexitResult::ExtInt(0x21))
    );
    assert_eq!(
        exit_action(&BasicExitReason::InterruptWindow, 0x1_8000_0084),
        ExitAction::CloseWindow { controls: 0x8000_0080 }
    );
    assert_eq!(exit_action(&BasicExitReason::ExternalInt(None), 0), ExitAction::Handle);
    assert_eq!(exit_action(&BasicExitReason::Hlt, 0), ExitAction::Handle);
}

#[test]
fn control_fitting_and_vcpu_init() {
    // Low half: default ones; high half: allowed ones.
    assert_eq!(fit_controls(0x0000_007f_0000_0016, 0x1, 0xe9), 0x17);
    assert_eq!(fit_controls(0x0000_0001_0000_0016, 0x1, 0xe9), 0x1);
    assert_eq!(fit_controls(0xffff_ffff_0003_6dff, 0x200, 0), 0x3_6fff);
    let caps = VmxCapabilities {
        pinbased: 0x0000_007f_0000_0016,
        procbased: 0xfff9_fffe_0401_e172,
        procbased2: 0x0053_7fff_0000_0000,
        exit: 0x01ff_ffff_0003_6dff,
        entry: 0x0003_ffff_0000_11ff,
    };
    assert!(((caps.procbased >> 32) as u32) & PROC_ACTIVATE_SECONDARY_CTL != 0);
    let wanted = VmxControls {
        pinbased: 0x1,
        procbased: 0x80,
        procbased2: 0x82,
        exit: 0x8200,
        entry: 0x200,
    };
    let host = HostState {
        cr0: 0x8005_0033,
        cr4: 0x2020,
        cr3: 0x10_0000,
        cpuid: 1,
        gdtr_base: 0xffff_8000_0010_0000,
        idtr_base: 0xffff_8000_0020_0000,
        tr_base: 0xffff_8000_0030_0000,
        rip: 0xffff_8000_0040_0000,
    };
    let fields = init_vcpu_fields(&caps, &wanted, 0x4000, &host);
    assert_eq!(fields.len(), 22);
    assert_eq!(fields[0], (Field::PinBasedExecControls, 0x17));
    assert_eq!(
        fields[1],
        (Field::ProcessorBasedVmexecControls, (0x0401_e172u32 & !0xfbfb_9e8c | 0x8000_0080) as u64 & 0xfff9_fffe)
    );
    assert_eq!(fields[2], (Field::SecondaryVmexecControls, 0x82));
    assert_eq!(fields[3], (Field::VmexitControls, 0x3_efff));
    assert_eq!(fields[4], (Field::VmentryControls, 0x13ff));
    assert_eq!(fields[5], (Field::ExceptionBitmap, 0x4000));
    assert_eq!(fields[6], (Field::HostCr0, 0x8005_0033));
    assert_eq!(fields[9], (Field::HostEsSelector, 0x10));
    assert_eq!(fields[14], (Field::HostCsSelector, 0x8));
    assert_eq!(fields[15], (Field::HostTrSelector, (5 + 2) << 3));
    assert_eq!(fields[18], (Field::HostFsBase, 0));
    assert_eq!(fields[21], (Field::HostRip, 0xffff_8000_0040_0000));
}

#[test]
fn run_loop_steps() {
    assert!(matches!(run_step(RunEvent::Injected { kicked: true }), RunStep::Return(Ok(VmexitResult::Kicked))));
    assert!(matches!(run_step(RunEvent::Injected { kicked: false }), RunStep::Enter));
    assert!(matches!(run_step(RunEvent::Launched(0)), RunStep::HandleExit));
    assert!(matches!(run_step(RunEvent::Launched(1)), RunStep::ReadFailure));
    assert!(matches!(run_step(RunEvent::Launched(2)), RunStep::ReadFailure));
    assert!(matches!(
        run_step(RunEvent::FailureRead(Some(7))),
        RunStep::Return(Err(VmError::VmxOperationError(InstructionError::InvalidCs)))
    ));
    assert!(matches!(
        run_step(RunEvent::FailureRead(None)),
        RunStep::Return(Err(VmError::VmxOperationError(InstructionError::Unknown)))
    ));
    assert!(matches!(run_step(RunEvent::Handled(Ok(VmexitResult::Resume))), RunStep::Continue));
    assert!(matches!(
        run_step(RunEvent::Handled(Ok(VmexitResult::Exited(3)))),
        RunStep::Return(Ok(VmexitResult::Exited(3)))
    ));
    assert!(matches!(
        run_step(RunEvent::Handled(Err(VmError::ControllerError))),
        RunStep::Return(Err(VmError::ControllerError))
    ));
}

#[test]
fn vcpu_thread_runs_init_first_and_exits_with_the_first_code() {
    let mut vm = Vm::new(2);
    vm.start_vcpu(1, handle(0)).unwrap();
    let (mut th, first) = VCpuThread::new(1);
    assert_eq!(first, VCpuThreadStep::RunInit);
    assert_eq!(th.stage, VCpuThreadStage::Init);
    assert_eq!(th.step(&vm, VCpuThreadEvent::Initialized), VCpuThreadStep::Enter);
    assert_eq!(th.stage, VCpuThreadStage::Running);
    assert_eq!(
        th.step(&vm, VCpuThreadEvent::Returned(VmexitResult::ExtInt(32))),
        VCpuThreadStep::Act(VCpuThreadAction::Irq { vector: 32, check_kick: false })
    );
    assert_eq!(
        th.step(&vm, VCpuThreadEvent::Returned(VmexitResult::Kicked)),
        VCpuThreadStep::Act(VCpuThreadAction::CheckKick)
    );
    assert_eq!(
        th.step(&vm, VCpuThreadEvent::Returned(VmexitResult::Exited(5))),
        VCpuThreadStep::Act(VCpuThreadAction::Exit(5))
    );
    assert_eq!(th.stage, VCpuThreadStage::Exited(5));
    assert_eq!(th.id, 1);
}

#[test]
fn vcpus_of_a_handle() {
    let h = VmHandle::new(2);
    assert!(matches!(h.vcpu(0), Some(VCpuRunningState::Halted)));
    assert!(matches!(h.vcpu(1), Some(VCpuRunningState::Halted)));
    assert!(h.vcpu(2).is_none());
}
