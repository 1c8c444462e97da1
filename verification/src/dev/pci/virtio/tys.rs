//! VirtIO device types, status bits and common feature bits.
use vstd::prelude::*;

verus! {

/// VirtIO device types.
#[derive(Copy, Clone, Debug, PartialEq, Eq, Structural)]
pub enum DeviceType {
    Reserved,
    NetworkCard,
    Block,
    Console,
    EntropySource,
    MemoryBallonningTranditional,
    IoMemory,
    RpMsg,
    ScsiHost,
    Transport9P,
    Mac802WLan,
    RprocSerial,
    VirtioCaif,
    MemoryBalloon,
    Gpu,
    TimerClock,
    Input,
    Socket,
    Crypto,
    SignalDistributionModule,
    Pstore,
    IoMmu,
    Memory,
}

impl DeviceType {
    /// The device id of this type.
    pub open spec fn id(self) -> u32 {
        match self {
            DeviceType::Reserved => 0,
            DeviceType::NetworkCard => 1,
            DeviceType::Block => 2,
            DeviceType::Console => 3,
            DeviceType::EntropySource => 4,
            DeviceType::MemoryBallonningTranditional => 5,
            DeviceType::IoMemory => 6,
            DeviceType::RpMsg => 7,
            DeviceType::ScsiHost => 8,
            DeviceType::Transport9P => 9,
            DeviceType::Mac802WLan => 10,
            DeviceType::RprocSerial => 11,
            DeviceType::VirtioCaif => 12,
            DeviceType::MemoryBalloon => 13,
            DeviceType::Gpu => 16,
            DeviceType::TimerClock => 17,
            DeviceType::Input => 18,
            DeviceType::Socket => 19,
            DeviceType::Crypto => 20,
            DeviceType::SignalDistributionModule => 21,
            DeviceType::Pstore => 22,
            DeviceType::IoMmu => 23,
            DeviceType::Memory => 24,
        }
    }

    /// The type with device id `v`, if there is one.
    pub fn try_from(v: u32) -> (r: Option<DeviceType>)
        ensures
            r is Some <==> (v <= 13 || 16 <= v <= 24),
            r is Some ==> r->0.id() == v,
    {
        match v {
            0 => Some(DeviceType::Reserved),
            1 => Some(DeviceType::NetworkCard),
            2 => Some(DeviceType::Block),
            3 => Some(DeviceType::Console),
            4 => Some(DeviceType::EntropySource),
            5 => Some(DeviceType::MemoryBallonningTranditional),
            6 => Some(DeviceType::IoMemory),
            7 => Some(DeviceType::RpMsg),
            8 => Some(DeviceType::ScsiHost),
            9 => Some(DeviceType::Transport9P),
            10 => Some(DeviceType::Mac802WLan),
            11 => Some(DeviceType::RprocSerial),
            12 => Some(DeviceType::VirtioCaif),
            13 => Some(DeviceType::MemoryBalloon),
            16 => Some(DeviceType::Gpu),
            17 => Some(DeviceType::TimerClock),
            18 => Some(DeviceType::Input),
            19 => Some(DeviceType::Socket),
            20 => Some(DeviceType::Crypto),
            21 => Some(DeviceType::SignalDistributionModule),
            22 => Some(DeviceType::Pstore),
            23 => Some(DeviceType::IoMmu),
            24 => Some(DeviceType::Memory),
            _ => None,
        }
    }
}

/// The driver found the device.
pub const STATUS_ACKNOWLEDGE: u8 = 0x1;
/// The driver knows how to drive the device.
pub const STATUS_DRIVER: u8 = 0x2;
/// The driver is ready.
pub const STATUS_DRIVER_OK: u8 = 0x4;
/// Feature negotiation is complete.
pub const STATUS_FEATURES_OK: u8 = 0x8;
/// The device needs a reset.
pub const STATUS_DEVICE_NEEDS_RESET: u8 = 0x40;
/// Something went wrong.
pub const STATUS_FAILED: u8 = 0x80;

/// Notify on empty (legacy).
pub const FEATURE_NOTIFY_ON_EMPTY: u64 = 0x100_0000;
/// Any layout (legacy).
pub const FEATURE_ANY_LAYOUT: u64 = 0x800_0000;
/// Indirect descriptors.
pub const FEATURE_RING_INDIRECT_DESC: u64 = 0x1000_0000;
/// Used and available event indices.
pub const FEATURE_RING_EVENT_IDX: u64 = 0x2000_0000;
/// The device follows version 1 of the specification.
pub const FEATURE_VERSION_1: u64 = 0x1_0000_0000;
/// Every common feature bit.
pub const FEATURES_COMMON_ALL: u64 = 0x7f_3900_0000;

/// Queue interrupt.
pub const ISR_QUEUE_INTERRUPT: u32 = 0x1;
/// Device configuration interrupt.
pub const ISR_DEVICE_CONFIGURATION_INTERRUPT: u32 = 0x2;

} // verus!
