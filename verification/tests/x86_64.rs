use lib::interrupt::{InterruptState, TrapFrame, RFLAGS_USER_MASKED};
use lib::x86_64::interrupt::{ExceptionType, ExceptionVector, InterruptGateDescriptor};
use lib::x86_64::segmentation::{
    Segment, SegmentAccess, SegmentDescriptor, SegmentDescriptor64, SegmentSelector, SEG_CODE,
    SEG_G, SEG_L, SEG_P, SEG_S, SEG_WR,
};
use lib::x86_64::table::{InterruptDescriptorTable, SystemTableRegister};
use lib::x86_64::tss::TaskStateSegment;
use lib::x86_64::{PrivilegeLevel, Rflags, RFLAGS_IF};

#[test]
fn kernel_code_descriptor_encoding() {
    let access = SegmentAccess(SEG_P | SEG_S | SEG_L | SEG_G | SEG_CODE | SEG_WR);
    let d = SegmentDescriptor::new(0, 0xffff_ffff, access, PrivilegeLevel::Ring0);
    assert_eq!(d.0, 0x00af_9a00_0000_ffff);
    let u = SegmentDescriptor::new(0, 0xffff_ffff, access, PrivilegeLevel::Ring3);
    assert_eq!(u.0, 0x00af_fa00_0000_ffff);
    assert_eq!(SegmentDescriptor::null().0, 0);
}

#[test]
fn descriptor_fields_read_back() {
    let d = SegmentDescriptor::new(0x1234_5678, 0xabcde, SegmentAccess(SEG_P), PrivilegeLevel::Ring2);
    let base = ((d.0 >> 16) & 0xff_ffff) | ((d.0 >> 56) << 24);
    let limit = (d.0 & 0xffff) | (((d.0 >> 48) & 0xf) << 16);
    assert_eq!(base, 0x1234_5678);
    assert_eq!(limit, 0xabcde);
    assert_eq!((d.0 >> 45) & 3, 2);
}

#[test]
fn selector_round_trip() {
    let s = SegmentSelector::new(5, PrivilegeLevel::Ring3);
    assert_eq!(s.pack(), 0x2b);
    assert_eq!(s.index(), 5);
    assert_eq!(s.dpl(), PrivilegeLevel::Ring3);
    assert_eq!(Segment::KernelCode.into_selector(0).pack(), 0x08);
    assert_eq!(Segment::KernelData.into_selector(0).pack(), 0x10);
    assert_eq!(Segment::UserData.into_selector(0).pack(), 0x1b);
    assert_eq!(Segment::UserCode.into_selector(0).pack(), 0x23);
    assert_eq!(Segment::Null.into_selector(0).pack(), 0x03);
    assert_eq!(Segment::Tss.into_selector(0).pack(), 0x28);
    assert_eq!(Segment::Tss.into_selector(2).pack(), 0x48);
}

#[test]
fn exception_vectors() {
    assert_eq!(ExceptionVector::new(14), Some(ExceptionVector::PageFault));
    assert_eq!(ExceptionVector::new(0), Some(ExceptionVector::DivideError));
    assert_eq!(ExceptionVector::new(255), Some(ExceptionVector::UserDefined223));
    assert_eq!(ExceptionVector::new(256), None);
    assert_eq!(ExceptionVector::GeneralProtection.into_raw(), 13);
    for i in 0..256usize {
        assert_eq!(ExceptionVector::new(i).unwrap().into_raw(), i);
    }
}

#[test]
fn interrupt_gate_layout() {
    let mut g = InterruptGateDescriptor::empty();
    assert_eq!(g.options, 0);
    let ss = SegmentSelector::new(1, PrivilegeLevel::Ring0);
    g.set(ss, ExceptionType::Interrupt, 0x1234_5678_9abc_def0);
    assert_eq!(g.lo, 0xdef0);
    assert_eq!(g.mid, 0x9abc);
    assert_eq!(g.hi, 0x1234_5678);
    assert_eq!(g.selector, 0x8);
    assert_eq!(g.options, 0x8e00);
    let user = SegmentSelector::new(4, PrivilegeLevel::Ring3);
    g.set(user, ExceptionType::Trap, 0x10);
    assert_eq!(g.options, 0x8000 | (3 << 13) | 0xf00);
    assert_eq!(g.selector, 0x20);
}

#[test]
fn idt_set_and_register() {
    let mut idt = InterruptDescriptorTable::empty();
    assert_eq!(idt.entries.len(), 256);
    let ss = SegmentSelector::new(1, PrivilegeLevel::Ring0);
    idt.set(ExceptionVector::PageFault, ss, ExceptionType::Interrupt, 0xffff_8000_0000_1000);
    assert_eq!(idt.entries[14].lo, 0x1000);
    assert_eq!(idt.entries[14].hi, 0xffff_8000);
    assert_eq!(idt.entries[13].options, 0);
    let reg = idt.load(0xdead_0000);
    assert_eq!(reg.size, 4095);
    assert_eq!(reg.address, 0xdead_0000);
    let r = SystemTableRegister::new(104, 7);
    assert_eq!(r.size, 103);
}

#[test]
fn tss_descriptor() {
    let tss = TaskStateSegment::empty();
    assert_eq!(tss.rsp0, 0);
    let mut d = SegmentDescriptor64::null();
    tss.fill_segment_descriptor(0xffff_ff00_1234_5678, &mut d);
    assert_eq!(d.1, 0xffff_ff00);
    assert_eq!(d.0 & 0xffff, 104);
    assert_eq!((d.0 >> 40) & 0xff, 0x89);
    assert_eq!(((d.0 >> 16) & 0xff_ffff) | ((d.0 >> 56) << 24), 0x1234_5678);
}

#[test]
fn user_trap_frame() {
    let mut tf = TrapFrame::new_user();
    assert_eq!(tf.interrupt_stack_frame.cs.pack(), 0x23);
    assert_eq!(tf.interrupt_stack_frame.ss.pack(), 0x1b);
    assert_eq!(tf.interrupt_stack_frame.rflags.bits(), 0x202);
    tf.set_rflags(u64::MAX);
    let f = tf.interrupt_stack_frame.rflags.bits();
    assert_eq!(f & RFLAGS_IF, RFLAGS_IF);
    assert_eq!(f & (RFLAGS_USER_MASKED & !RFLAGS_IF), 0);
    assert_eq!(f, (0x3f_7fd7 & !RFLAGS_USER_MASKED) | 0x202);
    tf.set_cs(0x08);
    assert_eq!(tf.interrupt_stack_frame.cs.pack(), 0x0b);
    tf.set_ss(0x10);
    assert_eq!(tf.interrupt_stack_frame.ss.pack(), 0x13);
    assert_eq!(tf.gprs.rax, 0);
}

#[test]
fn interrupt_state_from_flags() {
    assert_eq!(InterruptState::current(Rflags(0x202)), InterruptState::On);
    assert_eq!(InterruptState::current(Rflags(0x2)), InterruptState::Off);
}
