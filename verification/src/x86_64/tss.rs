//! Task-state segment.
use vstd::prelude::*;
use super::PrivilegeLevel;
use super::segmentation::{
    descriptor_low, SegmentAccess64, SegmentDescriptor64, SEG64_T64A, SEG_P,
};

verus! {

/// Size in bytes of the 64-bit task-state segment.
pub const TSS_SIZE: u64 = 104;

/// 64-bit task-state segment.
#[derive(Copy, Clone, Debug, PartialEq, Eq, Structural)]
pub struct TaskStateSegment {
    pub res0: u32,
    pub rsp0: usize,
    pub rsp1: usize,
    pub rsp2: usize,
    pub res1: u64,
    pub ist1: u64,
    pub ist2: u64,
    pub ist3: u64,
    pub ist4: u64,
    pub ist5: u64,
    pub ist6: u64,
    pub ist7: u64,
    pub res2: u64,
    pub res3: u16,
    pub io_map_base: u16,
}

impl TaskStateSegment {
    /// Whether every field is zero.
    pub open spec fn is_zero(self) -> bool {
        &&& self.res0 == 0 && self.rsp0 == 0 && self.rsp1 == 0 && self.rsp2 == 0
        &&& self.res1 == 0 && self.ist1 == 0 && self.ist2 == 0 && self.ist3 == 0
        &&& self.ist4 == 0 && self.ist5 == 0 && self.ist6 == 0 && self.ist7 == 0
        &&& self.res2 == 0 && self.res3 == 0 && self.io_map_base == 0
    }

    /// Create an empty task-state segment.
    pub fn empty() -> (r: TaskStateSegment)
        ensures
            r.is_zero(),
    {
        TaskStateSegment {
            res0: 0,
            rsp0: 0,
            rsp1: 0,
            rsp2: 0,
            res1: 0,
            ist1: 0,
            ist2: 0,
            ist3: 0,
            ist4: 0,
            ist5: 0,
            ist6: 0,
            ist7: 0,
            res2: 0,
            res3: 0,
            io_map_base: 0,
        }
    }

    /// Fill `desc` with the descriptor of this segment, which lies at
    /// `address`: present, an available 64-bit TSS, ring 0.
    pub fn fill_segment_descriptor(&self, address: u64, desc: &mut SegmentDescriptor64)
        ensures
            final(desc).0 == descriptor_low(address, TSS_SIZE, SEG_P | SEG64_T64A, 0),
            final(desc).1 == (address >> 32u64) & 0xffff_ffff,
    {
        *desc = SegmentDescriptor64::new(
            address,
            TSS_SIZE,
            SegmentAccess64(SEG_P | SEG64_T64A),
            PrivilegeLevel::Ring0,
        );
    }
}

} // verus!
