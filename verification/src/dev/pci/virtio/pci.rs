//! The VirtIO PCI transport: locating the configuration structures that
//! the device's vendor capabilities describe.
use vstd::prelude::*;
use core::ops::Range;
use crate::addressing::Pa;
use crate::dev::mmio::{MmioAccessor, MmioArea};
use crate::dev::pci::bar::{Bar, MemorySpace};
use crate::dev::pci::header::PciHeader;
use super::virt_queue::Kick;

verus! {

broadcast use crate::addressing::group_pa_value;

/// Kinds of VirtIO PCI capability.
#[derive(Copy, Clone, Debug, PartialEq, Eq, Structural)]
pub enum PciCapabilityType {
    CommonCfg,
    NotifyCfg,
    IsrCfg,
    DeviceCfg,
    PciCfg,
    Unknown,
}

/// The kind that the type byte of a capability names.
pub open spec fn capability_type(ty: u8) -> PciCapabilityType {
    if ty == 1 {
        PciCapabilityType::CommonCfg
    } else if ty == 2 {
        PciCapabilityType::NotifyCfg
    } else if ty == 3 {
        PciCapabilityType::IsrCfg
    } else if ty == 4 {
        PciCapabilityType::DeviceCfg
    } else if ty == 5 {
        PciCapabilityType::PciCfg
    } else {
        PciCapabilityType::Unknown
    }
}

/// Vendor byte of a VirtIO capability.
pub const VENDOR_VIRTIO: u8 = 9;
/// Offset of the type byte in a capability.
pub const TYPE_OFFSET: u8 = 3;
/// Offset of the BAR byte in a capability.
pub const BAR_OFFSET: u8 = 4;
/// Offset of the offset dword in a capability.
pub const OFFSET_OFFSET: u8 = 8;
/// Offset of the length dword in a capability.
pub const LENGTH_OFFSET: u8 = 12;
/// Offset of the notify offset multiplier in a notify capability.
pub const MULTIPLIER_OFFSET: u8 = 16;

/// The registers of one capability, as read from configuration space.
#[derive(Copy, Clone, Debug, PartialEq, Eq, Structural)]
pub struct VirtIoCapability {
    pub vendor: u8,
    pub ty: u8,
    pub bar: u8,
    pub offset: u32,
    pub length: u32,
    pub notify_off_multiplier: u32,
}

impl VirtIoCapability {
    /// The kind of this capability.
    pub fn ty(&self) -> (r: PciCapabilityType)
        ensures
            r == capability_type(self.ty),
    {
        if self.ty == 1 {
            PciCapabilityType::CommonCfg
        } else if self.ty == 2 {
            PciCapabilityType::NotifyCfg
        } else if self.ty == 3 {
            PciCapabilityType::IsrCfg
        } else if self.ty == 4 {
            PciCapabilityType::DeviceCfg
        } else if self.ty == 5 {
            PciCapabilityType::PciCfg
        } else {
            PciCapabilityType::Unknown
        }
    }
}

/// The common configuration registers.
#[derive(Debug)]
pub struct VirtIoPciCommonCfg {
    pub area: MmioArea,
}

/// The interrupt status register.
#[derive(Debug)]
pub struct VirtIoIsrCfg {
    pub area: MmioArea,
}

/// Registers of the common configuration structure.
#[derive(Copy, Clone, Debug, PartialEq, Eq, Structural)]
pub enum CommonCfgRegister {
    DeviceFeaturesSelect,
    DeviceFeatures,
    DriverFeaturesSelect,
    DriverFeatures,
    MsixConfig,
    NumQueues,
    DeviceStatus,
    ConfigGeneration,
    QueueSelect,
    QueueSize,
    QueueMsixVector,
    QueueEnable,
    QueueNotifyOff,
    QueueDesc,
    QueueDriver,
    QueueDevice,
}

/// Where a register lies in the common configuration structure, and
/// whether the driver reads and writes it: (offset, readable, writable).
pub open spec fn common_cfg_layout(reg: CommonCfgRegister) -> (usize, bool, bool) {
    match reg {
        CommonCfgRegister::DeviceFeaturesSelect => (0, false, true),
        CommonCfgRegister::DeviceFeatures => (4, true, false),
        CommonCfgRegister::DriverFeaturesSelect => (8, false, true),
        CommonCfgRegister::DriverFeatures => (12, false, true),
        CommonCfgRegister::MsixConfig => (16, true, true),
        CommonCfgRegister::NumQueues => (18, true, false),
        CommonCfgRegister::DeviceStatus => (20, true, true),
        CommonCfgRegister::ConfigGeneration => (21, true, false),
        CommonCfgRegister::QueueSelect => (22, true, true),
        CommonCfgRegister::QueueSize => (24, true, true),
        CommonCfgRegister::QueueMsixVector => (26, true, true),
        CommonCfgRegister::QueueEnable => (28, true, true),
        CommonCfgRegister::QueueNotifyOff => (30, true, false),
        CommonCfgRegister::QueueDesc => (32, true, true),
        CommonCfgRegister::QueueDriver => (40, true, true),
        CommonCfgRegister::QueueDevice => (48, true, true),
    }
}

/// The accessor of register `reg` of a common configuration structure
/// that starts at `start`.
pub open spec fn common_cfg_accessor(start: usize, reg: CommonCfgRegister) -> MmioAccessor {
    let (offset, readable, writable) = common_cfg_layout(reg);
    MmioAccessor { addr: (start + offset) as usize, readable, writable }
}

impl VirtIoPciCommonCfg {
    /// The accessor of register `reg`.
    pub fn register(&self, reg: CommonCfgRegister) -> (r: MmioAccessor)
        requires
            self.area.0.start.value() + 48 <= usize::MAX,
        ensures
            r == common_cfg_accessor(self.area.0.start.value(), reg),
    {
        let start = self.area.0.start.into_usize();
        let (offset, readable, writable): (usize, bool, bool) = match reg {
            CommonCfgRegister::DeviceFeaturesSelect => (0, false, true),
            CommonCfgRegister::DeviceFeatures => (4, true, false),
            CommonCfgRegister::DriverFeaturesSelect => (8, false, true),
            CommonCfgRegister::DriverFeatures => (12, false, true),
            CommonCfgRegister::MsixConfig => (16, true, true),
            CommonCfgRegister::NumQueues => (18, true, false),
            CommonCfgRegister::DeviceStatus => (20, true, true),
            CommonCfgRegister::ConfigGeneration => (21, true, false),
            CommonCfgRegister::QueueSelect => (22, true, true),
            CommonCfgRegister::QueueSize => (24, true, true),
            CommonCfgRegister::QueueMsixVector => (26, true, true),
            CommonCfgRegister::QueueEnable => (28, true, true),
            CommonCfgRegister::QueueNotifyOff => (30, true, false),
            CommonCfgRegister::QueueDesc => (32, true, true),
            CommonCfgRegister::QueueDriver => (40, true, true),
            CommonCfgRegister::QueueDevice => (48, true, true),
        };
        MmioAccessor { addr: start + offset, readable, writable }
    }

    /// The 64 device feature bits, from the dword read with select 0 (`lo`)
    /// and the dword read with select 1 (`hi`).
    pub fn get_device_features(&self, lo: u32, hi: u32) -> (r: u64)
        ensures
            r == ((hi as u64) << 32u64) | (lo as u64),
    {
        ((hi as u64) << 32u64) | (lo as u64)
    }

    /// The dwords to write with select 0 and select 1 for `features`.
    pub fn set_features(&self, features: u64) -> (r: (u32, u32))
        ensures
            r.0 == features as u32,
            r.1 == (features >> 32u64) as u32,
    {
        (features as u32, (features >> 32u64) as u32)
    }
}

/// Splitting features into two dwords and joining them gives them back.
pub proof fn lemma_features_round_trip(features: u64)
    ensures
        ((((features >> 32u64) as u32) as u64) << 32u64) | ((features as u32) as u64) == features,
{
    assert(((((features >> 32u64) as u32) as u64) << 32u64) | ((features as u32) as u64) == features)
        by (bit_vector);
}

/// Where queue notifications go: a memory window, an offset in it and the
/// multiplier of each queue's notify offset.
#[derive(Copy, Clone, Debug)]
pub struct NotifyCfgTriple {
    pub memory_space: MemorySpace,
    pub offset: usize,
    pub mult: usize,
}

/// The last VirtIO capability of type byte `ty` in `caps`.
pub open spec fn last_cap(caps: Seq<VirtIoCapability>, ty: u8) -> Option<VirtIoCapability>
    decreases caps.len(),
{
    if caps.len() == 0 {
        None
    } else if caps.last().vendor == VENDOR_VIRTIO && caps.last().ty == ty {
        Some(caps.last())
    } else {
        last_cap(caps.drop_last(), ty)
    }
}

/// The decoded BAR `i`, if `i` names one.
pub open spec fn bar_of(bars: Seq<Option<Bar>>, i: u8) -> Option<Bar> {
    if i <= 5 {
        bars[i as int]
    } else {
        None
    }
}

/// The area of `length` bytes at `offset` in a memory window.
pub open spec fn window_part(m: MemorySpace, offset: usize, length: usize) -> Option<MmioArea> {
    if offset < m.length && offset + length <= m.length {
        Some(
            MmioArea(
                Range {
                    start: Pa::from_value((m.base.value() + offset) as usize),
                    end: Pa::from_value((m.base.value() + offset + length) as usize),
                },
            ),
        )
    } else {
        None
    }
}

/// The area a capability describes.
pub open spec fn resolve(bars: Seq<Option<Bar>>, cap: VirtIoCapability) -> Option<MmioArea> {
    match bar_of(bars, cap.bar) {
        Some(Bar::MemorySpace(m)) => window_part(m, cap.offset as usize, cap.length as usize),
        _ => None,
    }
}

/// The area of the last capability of type byte `ty`.
pub open spec fn config_of(caps: Seq<VirtIoCapability>, bars: Seq<Option<Bar>>, ty: u8) -> Option<
    MmioArea,
> {
    match last_cap(caps, ty) {
        Some(c) => resolve(bars, c),
        None => None,
    }
}

/// Every memory window ends below the top of the address space.
pub open spec fn bars_ok(bars: Seq<Option<Bar>>) -> bool {
    &&& bars.len() == 6
    &&& forall|i: int|
        0 <= i < 6 ==> match #[trigger] bars[i] {
            Some(Bar::MemorySpace(m)) => m.base.value() + m.length <= usize::MAX,
            _ => true,
        }
}

/// Whether `bars` are the six BARs of a function, each memory BAR ending
/// within the address space.
pub fn check_bars(bars: &Vec<Option<Bar>>) -> (r: bool)
    ensures
        r == bars_ok(bars@),
{
    if bars.len() != 6 {
        return false;
    }
    let mut i: usize = 0;
    while i < 6
        invariant
            bars@.len() == 6,
            i <= 6,
            forall|j: int|
                0 <= j < i ==> match #[trigger] bars@[j] {
                    Some(Bar::MemorySpace(m)) => m.base.value() + m.length <= usize::MAX,
                    _ => true,
                },
        decreases 6 - i,
    {
        match &bars[i] {
            Some(Bar::MemorySpace(m)) => {
                if m.base.into_usize() > usize::MAX - m.length {
                    return false;
                }
            },
            _ => {},
        }
        i += 1;
    }
    true
}

/// The configuration structures that the capabilities and BARs give: all
/// four must be present and resolve.
pub open spec fn configurations(caps: Seq<VirtIoCapability>, bars: Seq<Option<Bar>>) -> Option<
    (MmioArea, MmioArea, MmioArea, NotifyCfgTriple),
> {
    match (config_of(caps, bars, 1), config_of(caps, bars, 4), config_of(caps, bars, 3), last_cap(caps, 2)) {
        (Some(common), Some(device), Some(isr), Some(n)) => match bar_of(bars, n.bar) {
            Some(Bar::MemorySpace(m)) => Some(
                (
                    common,
                    device,
                    isr,
                    NotifyCfgTriple {
                        memory_space: m,
                        offset: n.offset as usize,
                        mult: n.notify_off_multiplier as usize,
                    },
                ),
            ),
            _ => None,
        },
        _ => None,
    }
}

/// The decoded BAR `i`, if `i` names one.
fn get_bar(bars: &Vec<Option<Bar>>, i: u8) -> (r: Option<Bar>)
    requires
        bars.len() == 6,
    ensures
        r == bar_of(bars@, i),
{
    if i <= 5 {
        bars[i as usize]
    } else {
        None
    }
}

/// The area a capability describes.
fn resolve_cap(bars: &Vec<Option<Bar>>, cap: &VirtIoCapability) -> (r: Option<MmioArea>)
    requires
        bars_ok(bars@),
    ensures
        r == resolve(bars@, *cap),
{
    match get_bar(bars, cap.bar) {
        Some(Bar::MemorySpace(m)) => {
            assert(m.base.value() + m.length <= usize::MAX);
            m.try_split_mmio_range(cap.offset as usize, cap.length as usize)
        },
        _ => None,
    }
}

/// Find the common, device-specific, interrupt-status and notify
/// configurations among the capabilities `caps` of a function whose
/// decoded BARs are `bars`; a later capability of a kind replaces an
/// earlier one.
pub fn try_get_configurations(caps: &Vec<VirtIoCapability>, bars: &Vec<Option<Bar>>) -> (r: Option<
    (VirtIoPciCommonCfg, MmioArea, VirtIoIsrCfg, NotifyCfgTriple),
>)
    requires
        bars_ok(bars@),
    ensures
        match (configurations(caps@, bars@), r) {
            (None, None) => true,
            (Some((c, d, i, n)), Some((rc, rd, ri, rn))) => rc.area == c && rd == d && ri.area == i
                && rn == n,
            _ => false,
        },
{
    let mut common: Option<MmioArea> = None;
    let mut device: Option<MmioArea> = None;
    let mut isr: Option<MmioArea> = None;
    let mut notify: Option<VirtIoCapability> = None;
    let mut i: usize = 0;
    while i < caps.len()
        invariant
            bars_ok(bars@),
            i <= caps.len(),
            common == config_of(caps@.take(i as int), bars@, 1),
            device == config_of(caps@.take(i as int), bars@, 4),
            isr == config_of(caps@.take(i as int), bars@, 3),
            notify == last_cap(caps@.take(i as int), 2),
        decreases caps.len() - i,
    {
        let cap = caps[i];
        assert(caps@.take(i + 1).drop_last() =~= caps@.take(i as int));
        if cap.vendor == VENDOR_VIRTIO {
            match cap.ty() {
                PciCapabilityType::CommonCfg => {
                    common = resolve_cap(bars, &cap);
                },
                PciCapabilityType::IsrCfg => {
                    isr = resolve_cap(bars, &cap);
                },
                PciCapabilityType::DeviceCfg => {
                    device = resolve_cap(bars, &cap);
                },
                PciCapabilityType::NotifyCfg => {
                    notify = Some(cap);
                },
                _ => {},
            }
        }
        i = i + 1;
    }
    assert(caps@.take(caps.len() as int) =~= caps@);
    match (common, device, isr, notify) {
        (Some(common), Some(device), Some(isr), Some(n)) => {
            match get_bar(bars, n.bar) {
                Some(Bar::MemorySpace(m)) => Some(
                    (
                        VirtIoPciCommonCfg { area: common },
                        device,
                        VirtIoIsrCfg { area: isr },
                        NotifyCfgTriple {
                            memory_space: m,
                            offset: n.offset as usize,
                            mult: n.notify_off_multiplier as usize,
                        },
                    ),
                ),
                _ => None,
            }
        },
        _ => None,
    }
}

/// The VirtIO PCI transport of a function.
#[derive(Debug)]
pub struct PciTransport {
    pub pci: PciHeader,
    pub common: VirtIoPciCommonCfg,
    pub isr: VirtIoIsrCfg,
    pub notify: NotifyCfgTriple,
    pub device_cfg: MmioArea,
    pub feat: u64,
}

impl PciTransport {
    /// The transport of a VirtIO function, from its capabilities and BARs.
    pub fn new(pci: PciHeader, caps: &Vec<VirtIoCapability>, bars: &Vec<Option<Bar>>) -> (r:
        PciTransport)
        requires
            bars_ok(bars@),
            configurations(caps@, bars@) is Some,
        ensures
            r.pci == pci,
            r.feat == 0,
            match configurations(caps@, bars@) {
                Some((c, d, i, n)) => r.common.area == c && r.device_cfg == d && r.isr.area == i
                    && r.notify == n,
                None => false,
            },
    {
        let (common, device_cfg, isr, notify) = try_get_configurations(caps, bars).unwrap();
        PciTransport { pci, common, isr, notify, device_cfg, feat: 0 }
    }

    /// The notify register of the selected queue, whose notify offset is
    /// `queue_notify_off`.
    pub fn get_kick(&self, queue_notify_off: u16) -> (r: Kick)
        requires
            self.notify.memory_space.base.value() + self.notify.memory_space.length <= usize::MAX,
            window_part(
                self.notify.memory_space,
                (self.notify.offset + queue_notify_off * self.notify.mult) as usize,
                2,
            ) is Some,
            self.notify.offset + queue_notify_off * self.notify.mult <= usize::MAX,
        ensures
            r matches Kick::Pci(a) && a.addr == self.notify.memory_space.base.value()
                + self.notify.offset + queue_notify_off * self.notify.mult,
    {
        let off = self.notify.offset + (queue_notify_off as usize) * self.notify.mult;
        let area = self.notify.memory_space.try_split_mmio_range(off, 2).unwrap();
        Kick::Pci(MmioAccessor { addr: area.0.start.into_usize(), readable: true, writable: true })
    }

    /// Select queue `idx`: the register to write, and the value.
    pub fn select_queue(&self, idx: u16) -> (r: (MmioAccessor, u16))
        requires
            self.common.area.0.start.value() + 48 <= usize::MAX,
        ensures
            r.0 == common_cfg_accessor(
                self.common.area.0.start.value(),
                CommonCfgRegister::QueueSelect,
            ),
            r.1 == idx,
    {
        (self.common.register(CommonCfgRegister::QueueSelect), idx)
    }

    /// The register that holds the size of the selected queue.
    pub fn queue_size(&self) -> (r: MmioAccessor)
        requires
            self.common.area.0.start.value() + 48 <= usize::MAX,
        ensures
            r == common_cfg_accessor(self.common.area.0.start.value(), CommonCfgRegister::QueueSize),
    {
        self.common.register(CommonCfgRegister::QueueSize)
    }

    /// The register writes that hand the selected queue to the device: its
    /// size, the physical addresses of its descriptor, driver and device
    /// areas, then enabling it.
    pub fn register_virtqueue(&self, size: u16, desc: Pa, driver: Pa, device: Pa) -> (r: Vec<(MmioAccessor, u64)>)
        requires
            self.common.area.0.start.value() + 48 <= usize::MAX,
        ensures
            r@ == seq![
                (common_cfg_accessor(self.common.area.0.start.value(), CommonCfgRegister::QueueSize), size as u64),
                (common_cfg_accessor(self.common.area.0.start.value(), CommonCfgRegister::QueueDesc), desc.value() as u64),
                (common_cfg_accessor(self.common.area.0.start.value(), CommonCfgRegister::QueueDriver), driver.value() as u64),
                (common_cfg_accessor(self.common.area.0.start.value(), CommonCfgRegister::QueueDevice), device.value() as u64),
                (common_cfg_accessor(self.common.area.0.start.value(), CommonCfgRegister::QueueEnable), 1u64),
            ],
    {
        let mut r: Vec<(MmioAccessor, u64)> = Vec::new();
        r.push((self.common.register(CommonCfgRegister::QueueSize), size as u64));
        r.push((self.common.register(CommonCfgRegister::QueueDesc), desc.into_usize() as u64));
        r.push((self.common.register(CommonCfgRegister::QueueDriver), driver.into_usize() as u64));
        r.push((self.common.register(CommonCfgRegister::QueueDevice), device.into_usize() as u64));
        r.push((self.common.register(CommonCfgRegister::QueueEnable), 1u64));
        assert(r@ =~= seq![
            (common_cfg_accessor(self.common.area.0.start.value(), CommonCfgRegister::QueueSize), size as u64),
            (common_cfg_accessor(self.common.area.0.start.value(), CommonCfgRegister::QueueDesc), desc.value() as u64),
            (common_cfg_accessor(self.common.area.0.start.value(), CommonCfgRegister::QueueDriver), driver.value() as u64),
            (common_cfg_accessor(self.common.area.0.start.value(), CommonCfgRegister::QueueDevice), device.value() as u64),
            (common_cfg_accessor(self.common.area.0.start.value(), CommonCfgRegister::QueueEnable), 1u64),
        ]);
        r
    }

    /// The features the driver accepted.
    pub fn get_driver_features(&self) -> (r: u64)
        ensures
            r == self.feat,
    {
        self.feat
    }
}

} // verus!
