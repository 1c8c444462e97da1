//! Block device feature bits, requests and responses.
use vstd::prelude::*;

verus! {

/// Maximum segment size.
pub const BLK_F_SIZE_MAX: u64 = 0x2;
/// Maximum number of segments.
pub const BLK_F_SEG_MAX: u64 = 0x4;
/// Disk geometry.
pub const BLK_F_GEOMETRY: u64 = 0x10;
/// Read-only device.
pub const BLK_F_RO: u64 = 0x20;
/// Block size.
pub const BLK_F_BLK_SIZE: u64 = 0x40;
/// Every block feature bit.
pub const BLK_F_ALL: u64 = 0x6ef7;

/// Block feature bits.
#[derive(Copy, Clone, Debug, PartialEq, Eq, Structural)]
pub struct VirtIoFeaturesBlock(pub u64);

impl super::super::VirtIoDeviceFeature for VirtIoFeaturesBlock {
    fn bits(&self) -> (r: u64)
        ensures
            r == self.0,
    {
        self.0
    }

    fn from_bits_truncate(val: u64) -> (r: VirtIoFeaturesBlock)
        ensures
            r.0 == val & BLK_F_ALL,
    {
        VirtIoFeaturesBlock(val & BLK_F_ALL)
    }
}

/// Kinds of block request.
#[derive(Copy, Clone, Debug, PartialEq, Eq, Structural)]
pub enum VirtIoBlockType {
    In,
    Out,
    Flush,
    Discard,
    WriteZeros,
}

/// The header of a block request.
#[derive(Copy, Clone, Debug, PartialEq, Eq, Structural)]
pub struct VirtIoBlockReq {
    pub type_: VirtIoBlockType,
    pub reserved: u32,
    pub sector: u64,
}

impl Default for VirtIoBlockReq {
    fn default() -> (r: VirtIoBlockReq)
        ensures
            r == (VirtIoBlockReq { type_: VirtIoBlockType::In, reserved: 0, sector: 0 }),
    {
        VirtIoBlockReq { type_: VirtIoBlockType::In, reserved: 0, sector: 0 }
    }
}

/// The segment of a discard or write-zeroes request.
#[derive(Copy, Clone, Debug, PartialEq, Eq, Structural)]
pub struct VirtIoBlockDiscardWriteZeros {
    pub sector: u64,
    pub num_sectors: u32,
    pub flags: u32,
}

/// Status of a completed block request.
#[derive(Copy, Clone, Debug, PartialEq, Eq, Structural)]
pub enum VirtIoBlockResp {
    Success,
    IoErr,
    Unsupported,
}

impl VirtIoBlockResp {
    /// The status that the device's status byte names.
    pub fn from_status(v: u8) -> (r: Option<VirtIoBlockResp>)
        ensures
            r is Some <==> v <= 2,
            v == 0 ==> r == Some(VirtIoBlockResp::Success),
            v == 1 ==> r == Some(VirtIoBlockResp::IoErr),
            v == 2 ==> r == Some(VirtIoBlockResp::Unsupported),
    {
        if v == 0 {
            Some(VirtIoBlockResp::Success)
        } else if v == 1 {
            Some(VirtIoBlockResp::IoErr)
        } else if v == 2 {
            Some(VirtIoBlockResp::Unsupported)
        } else {
            None
        }
    }
}

} // verus!
