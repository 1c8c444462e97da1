use lib::kev::addr::{Gpa, Gva};
use lib::kev::vcpu::{BuildStep, GenericVCpuState, VmBuilder};
use lib::kev::vmcs::{
    parse_basic_reason, ActiveVmcs, BasicExitReason, EptViolationQualification, ExitReason,
    ExternalIntInfo, Field, InstructionError, InterruptionType, Vmcs,
};

#[test]
fn basic_exit_reasons() {
    assert_eq!(parse_basic_reason(0x0, 0, 0, 0), BasicExitReason::ExceptionOrNmi);
    assert_eq!(parse_basic_reason(0xa, 0, 0, 0), BasicExitReason::Cpuid);
    assert_eq!(parse_basic_reason(0xc, 0, 0, 0), BasicExitReason::Hlt);
    assert_eq!(parse_basic_reason(0x1e, 0, 0, 0), BasicExitReason::IoInstruction);
    assert_eq!(parse_basic_reason(0x37, 0, 0, 0), BasicExitReason::Xsetbv);
    assert_eq!(parse_basic_reason(0x8, 0, 0, 0), BasicExitReason::Unknown);
    assert_eq!(parse_basic_reason(0x1, 0, 0, 0), BasicExitReason::ExternalInt(None));
    assert_eq!(
        parse_basic_reason(0x1, 0x8000_0b20, 0, 0),
        BasicExitReason::ExternalInt(Some(ExternalIntInfo {
            host_int: 0x20,
            interruption_type: InterruptionType::HardwareException,
            error_code_valid: true,
            nmi_unblocked_by_iret: false,
        }))
    );
    assert_eq!(
        parse_basic_reason(0x30, 0, 0xf_0183, 0x1234_5000),
        BasicExitReason::EptViolation {
            qualification: EptViolationQualification(0xf_0183 & 0x1_ffff),
            fault_addr: Gpa::new(0x1234_5000),
        }
    );
}

#[test]
fn exit_reason_kinds() {
    let v = ActiveVmcs;
    assert_eq!(v.exit_reason(0xc, 0, 0, 0), ExitReason::BasicExitReason(BasicExitReason::Hlt));
    assert_eq!(
        v.exit_reason(0x8000_0021, 0, 0, 0),
        ExitReason::EntryFailure(BasicExitReason::EntfailGuestState)
    );
    assert_eq!(
        v.exit_reason(0x2000_0012, 0, 0, 0),
        ExitReason::ExitFromVmxRootOperation(BasicExitReason::Vmcall)
    );
    assert_eq!(*v.exit_reason(0x8000_0021, 0, 0, 0).get_basic_reason(), BasicExitReason::EntfailGuestState);
    assert_eq!(v.forward_rip(0x1000, 3), 0x1003);
}

#[test]
fn instruction_errors_and_fields() {
    assert_eq!(Vmcs::instruction_error(Some(7)), InstructionError::InvalidCs);
    assert_eq!(Vmcs::instruction_error(Some(14)), InstructionError::Unknown);
    assert_eq!(Vmcs::instruction_error(None), InstructionError::Unknown);
    assert_eq!(Vmcs::new(0x00da_0400_0000_0004).rev_id, 4);
    assert_eq!(Field::GuestRip.encoding(), 0x681e);
    assert_eq!(Field::VmexitReason.encoding(), 0x4402);
    assert_eq!(Field::Vpid.encoding(), 0);
}

#[test]
fn guest_addresses() {
    assert!(Gva::new(0x0000_8000_0000_0000).is_none());
    assert_eq!(Gva::new(0xffff_8000_0000_1000).unwrap().into_usize(), 0xffff_8000_0000_1000);
    assert!(Gpa::new(0xffff_0000_0000_0000).is_none());
    assert_eq!(Gpa::new(0x1000).unwrap().into_usize(), 0x1000);
}

#[test]
fn pending_interrupts() {
    let mut s = GenericVCpuState { vcpu_id: 2, pending_interrupts: vec![0, 0, 0, 0] };
    assert_eq!(s.id(), 2);
    s.inject_interrupt(65);
    assert_eq!(s.pending_interrupts, vec![0, 2, 0, 0]);
    s.inject_interrupt(64);
    assert_eq!(s.pending_interrupts[1], 3);
    s.inject_interrupt(255);
    assert_eq!(s.pending_interrupts[3], 1 << 63);
    let b = VmBuilder::new(2).exception_bitmap(0x4000);
    assert_eq!((b.vcpu, b.exception_bitmap), (2, 0x4000));
}

#[test]
fn setup_order_of_a_machine() {
    let b = VmBuilder::new(3);
    assert_eq!(b.next_setup(0), BuildStep::SetupBsp);
    assert_eq!(b.next_setup(1), BuildStep::SetupAp(1));
    assert_eq!(b.next_setup(2), BuildStep::SetupAp(2));
    assert_eq!(b.next_setup(3), BuildStep::Done);
    assert_eq!(VmBuilder::new(1).next_setup(1), BuildStep::Done);
}
