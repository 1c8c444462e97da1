//! Interrupt state and the register frame saved on a trap.
use vstd::prelude::*;
use crate::x86_64::interrupt::InterruptStackFrame;
use crate::x86_64::segmentation::{selector_bits, SegmentSelector};
use crate::x86_64::{
    PrivilegeLevel, Rflags, RFLAGS_ALL, RFLAGS_IF, RFLAGS_IOPL0, RFLAGS_IOPL1, RFLAGS_ONE,
    RFLAGS_VIF, RFLAGS_VIP, RFLAGS_VM,
};

verus! {

/// Whether maskable interrupts are enabled.
#[derive(Copy, Clone, Debug, PartialEq, Eq, Structural)]
pub enum InterruptState {
    On,
    Off,
}

impl InterruptState {
    /// The interrupt state that the rflags value `rflags` records.
    pub fn current(rflags: Rflags) -> (r: InterruptState)
        ensures
            r == InterruptState::On <==> rflags.0 & RFLAGS_IF == RFLAGS_IF,
    {
        if rflags.contains(RFLAGS_IF) {
            InterruptState::On
        } else {
            InterruptState::Off
        }
    }
}

/// Interrupts are disabled while a guard lives; the state it saved is
/// restored when it is dropped.
pub struct InterruptGuard {
    pub state: InterruptState,
}

/// General purpose registers, in the order a trap saves them.
#[derive(Copy, Clone, Debug, PartialEq, Eq, Structural)]
pub struct GeneralPurposeRegisters {
    pub r15: usize,
    pub r14: usize,
    pub r13: usize,
    pub r12: usize,
    pub r11: usize,
    pub r10: usize,
    pub r9: usize,
    pub r8: usize,
    pub rsi: usize,
    pub rdi: usize,
    pub rbp: usize,
    pub rdx: usize,
    pub rcx: usize,
    pub rbx: usize,
    pub rax: usize,
    pub error_code: u64,
}

impl GeneralPurposeRegisters {
    /// Whether every register is zero.
    pub open spec fn is_zero(self) -> bool {
        &&& self.r15 == 0 && self.r14 == 0 && self.r13 == 0 && self.r12 == 0
        &&& self.r11 == 0 && self.r10 == 0 && self.r9 == 0 && self.r8 == 0
        &&& self.rsi == 0 && self.rdi == 0 && self.rbp == 0 && self.rdx == 0
        &&& self.rcx == 0 && self.rbx == 0 && self.rax == 0 && self.error_code == 0
    }
}

impl Default for GeneralPurposeRegisters {
    fn default() -> (r: GeneralPurposeRegisters)
        ensures
            r.is_zero(),
    {
        GeneralPurposeRegisters {
            r15: 0,
            r14: 0,
            r13: 0,
            r12: 0,
            r11: 0,
            r10: 0,
            r9: 0,
            r8: 0,
            rsi: 0,
            rdi: 0,
            rbp: 0,
            rdx: 0,
            rcx: 0,
            rbx: 0,
            rax: 0,
            error_code: 0,
        }
    }
}

/// The flags bits that user code may not choose: IF, IOPL, VIP, VIF, VM.
pub const RFLAGS_USER_MASKED: u64 = 0x1a_3200;

/// The rflags value a user frame gets from the requested value `rflags`.
pub open spec fn user_rflags(rflags: u64) -> u64 {
    ((rflags & RFLAGS_ALL) & !RFLAGS_USER_MASKED) | RFLAGS_IF | RFLAGS_ONE
}

/// The registers saved on a trap.
#[derive(Copy, Clone, Debug, PartialEq, Eq, Structural)]
pub struct TrapFrame {
    pub gprs: GeneralPurposeRegisters,
    pub interrupt_stack_frame: InterruptStackFrame,
}

impl TrapFrame {
    /// A frame that enters user mode at address 0 with an empty stack and
    /// interrupts on.
    pub fn new_user() -> (r: TrapFrame)
        ensures
            r.gprs.is_zero(),
            r.interrupt_stack_frame.rip == 0,
            r.interrupt_stack_frame.rsp == 0,
            r.interrupt_stack_frame.cs.0 == selector_bits(4, 3),
            r.interrupt_stack_frame.ss.0 == selector_bits(3, 3),
            r.interrupt_stack_frame.rflags.0 == RFLAGS_IF | RFLAGS_ONE,
            r.interrupt_stack_frame.pad0 == 0 && r.interrupt_stack_frame.pad1 == 0,
            r.interrupt_stack_frame.pad2 == 0 && r.interrupt_stack_frame.pad3 == 0,
    {
        TrapFrame {
            gprs: GeneralPurposeRegisters::default(),
            interrupt_stack_frame: InterruptStackFrame {
                rip: 0,
                cs: SegmentSelector::new(4, PrivilegeLevel::Ring3),
                pad0: 0,
                pad1: 0,
                rflags: Rflags(RFLAGS_IF | RFLAGS_ONE),
                rsp: 0,
                ss: SegmentSelector::new(3, PrivilegeLevel::Ring3),
                pad2: 0,
                pad3: 0,
            },
        }
    }

    /// Set the code segment to the user-mode selector with the index of `cs`.
    pub fn set_cs(&mut self, cs: u16)
        ensures
            final(self).interrupt_stack_frame.cs.0 == selector_bits(cs >> 3u16, 3),
            final(self).gprs == old(self).gprs,
            final(self).interrupt_stack_frame == (InterruptStackFrame {
                cs: final(self).interrupt_stack_frame.cs,
                ..old(self).interrupt_stack_frame
            }),
    {
        self.interrupt_stack_frame.cs = SegmentSelector::new(cs >> 3u16, PrivilegeLevel::Ring3);
    }

    /// Set the stack segment to the user-mode selector with the index of `ss`.
    pub fn set_ss(&mut self, ss: u16)
        ensures
            final(self).interrupt_stack_frame.ss.0 == selector_bits(ss >> 3u16, 3),
            final(self).gprs == old(self).gprs,
            final(self).interrupt_stack_frame == (InterruptStackFrame {
                ss: final(self).interrupt_stack_frame.ss,
                ..old(self).interrupt_stack_frame
            }),
    {
        self.interrupt_stack_frame.ss = SegmentSelector::new(ss >> 3u16, PrivilegeLevel::Ring3);
    }

    /// Set the flags to `rflags`, except that interrupts stay enabled, the
    /// I/O privilege level stays 0 and virtual-8086 flags stay clear.
    pub fn set_rflags(&mut self, rflags: u64)
        ensures
            final(self).interrupt_stack_frame.rflags.0 == user_rflags(rflags),
            final(self).gprs == old(self).gprs,
            final(self).interrupt_stack_frame == (InterruptStackFrame {
                rflags: final(self).interrupt_stack_frame.rflags,
                ..old(self).interrupt_stack_frame
            }),
    {
        let masked = RFLAGS_IF | RFLAGS_IOPL0 | RFLAGS_IOPL1 | RFLAGS_VIP | RFLAGS_VIF | RFLAGS_VM;
        assert(masked == RFLAGS_USER_MASKED) by (bit_vector)
            requires
                masked == 0x200u64 | 0x1000u64 | 0x2000u64 | 0x10_0000u64 | 0x8_0000u64 | 0x2_0000u64,
        ;
        let f = Rflags::from_bits_truncate(rflags);
        self.interrupt_stack_frame.rflags = Rflags((f.0 & !masked) | RFLAGS_IF | RFLAGS_ONE);
    }
}

/// A user frame always has interrupts on, I/O privilege 0 and no
/// virtual-8086 flags, whatever value was requested.
pub proof fn lemma_user_rflags_safe(rflags: u64)
    ensures
        user_rflags(rflags) & RFLAGS_IF == RFLAGS_IF,
        user_rflags(rflags) & (RFLAGS_IOPL0 | RFLAGS_IOPL1 | RFLAGS_VM | RFLAGS_VIF | RFLAGS_VIP) == 0,
{
    let v = ((rflags & 0x3f_7fd7u64) & !0x1a_3200u64) | 0x200u64 | 0x2u64;
    assert(v & 0x200u64 == 0x200u64 && v & (0x1000u64 | 0x2000u64 | 0x2_0000u64 | 0x8_0000u64
        | 0x10_0000u64) == 0) by (bit_vector)
        requires
            v == ((rflags & 0x3f_7fd7u64) & !0x1a_3200u64) | 0x200u64 | 0x2u64,
    ;
}

} // verus!
