//! VirtIO devices over the PCI transport: device initialization, queue
//! configuration, and the block device.
use vstd::prelude::*;

pub mod block;
pub mod pci;
pub mod tys;
pub mod virt_queue;

use pci::PciTransport;
use tys::{
    FEATURES_COMMON_ALL, FEATURE_RING_EVENT_IDX, FEATURE_VERSION_1, STATUS_ACKNOWLEDGE,
    STATUS_DRIVER, STATUS_DRIVER_OK, STATUS_FAILED, STATUS_FEATURES_OK,
};
use virt_queue::{Kick, VirtQueue};

verus! {

/// Device-specific feature bits.
pub trait VirtIoDeviceFeature: Sized {
    /// The raw bits.
    fn bits(&self) -> u64;

    /// The features named in `val`, dropping undefined bits.
    fn from_bits_truncate(val: u64) -> Self;
}

/// A VirtIO device with up to `max_queue` virtqueues.
pub struct VirtIoDevice {
    pub virtqs: Vec<VirtQueue>,
    pub transport: PciTransport,
    pub max_queue: usize,
}

/// The step of device initialization.
#[derive(Copy, Clone, Debug, PartialEq, Eq, Structural)]
pub enum InitStage {
    /// Nothing done yet.
    Start,
    /// Reset written.
    ResetWritten,
    /// Waiting for the status to read zero.
    WaitReset,
    /// Acknowledge and driver written.
    Acknowledged,
    /// Accepted features written.
    FeaturesWritten,
    /// Reading the status to add features-ok.
    AddFeaturesOk,
    /// Features-ok written.
    FeaturesOkWritten,
    /// Reading back features-ok.
    CheckFeaturesOk,
    /// Device-specific setup running.
    DeviceSetup,
    /// Reading the status to add driver-ok.
    AddDriverOk,
    /// Driver-ok written.
    DriverOkWritten,
    /// Finished.
    Done,
}

/// What the caller reports to the initialization after doing its action.
#[derive(Copy, Clone, Debug, PartialEq, Eq, Structural)]
pub enum InitEvent {
    /// The status write is done.
    Written,
    /// The status register reads this value.
    StatusRead(u8),
    /// The device offers these features.
    DeviceFeatures(u64),
    /// The device-specific setup finished, successfully or not.
    DeviceSetupDone(bool),
}

/// What initialization asks the caller to do next.
#[derive(Copy, Clone, Debug, PartialEq, Eq, Structural)]
pub enum InitAction {
    /// Write this value to the status register.
    WriteStatus(u8),
    /// Read the status register.
    ReadStatus,
    /// Read the device features.
    ReadDeviceFeatures,
    /// Write the accepted features, then write the status as the next action asks.
    SetFeatures(u64),
    /// Run the device-specific setup with the accepted common and device features.
    DeviceSetup(u64, u64),
    /// Initialization ended: successfully or not.
    Finish(bool),
}

/// The common features accepted from the offered `features`.
pub open spec fn accepted_common(features: u64, common_mask: u64) -> u64 {
    ((features & FEATURES_COMMON_ALL) & common_mask) | FEATURE_VERSION_1
}

/// The device features accepted from the offered `features`.
pub open spec fn accepted_device(features: u64, device_mask: u64, device_defined: u64) -> u64 {
    (features & device_mask) & device_defined
}

/// Device initialization, as a state machine the caller drives.
#[derive(Copy, Clone, Debug)]
pub struct DeviceInit {
    pub stage: InitStage,
    pub common_mask: u64,
    pub device_mask: u64,
    pub device_defined: u64,
    pub common: u64,
    pub device: u64,
}

/// The stage and action after `event` in stage `s` (features `c`, `d` as
/// accepted so far).
pub open spec fn init_next(s: DeviceInit, event: InitEvent) -> (InitStage, InitAction) {
    match (s.stage, event) {
        (InitStage::Start, _) => (InitStage::ResetWritten, InitAction::WriteStatus(0)),
        (InitStage::ResetWritten, InitEvent::Written) => (InitStage::WaitReset, InitAction::ReadStatus),
        (InitStage::WaitReset, InitEvent::StatusRead(v)) => if v == 0 {
            (InitStage::Acknowledged, InitAction::WriteStatus(STATUS_ACKNOWLEDGE | STATUS_DRIVER))
        } else if v & STATUS_FAILED == STATUS_FAILED {
            (InitStage::Done, InitAction::Finish(false))
        } else {
            (InitStage::WaitReset, InitAction::ReadStatus)
        },
        (InitStage::Acknowledged, InitEvent::Written) => (
            InitStage::FeaturesWritten,
            InitAction::ReadDeviceFeatures,
        ),
        (InitStage::FeaturesWritten, InitEvent::DeviceFeatures(f)) => (
            InitStage::AddFeaturesOk,
            InitAction::SetFeatures(
                accepted_common(f, s.common_mask) | accepted_device(f, s.device_mask, s.device_defined),
            ),
        ),
        (InitStage::AddFeaturesOk, InitEvent::Written) => (InitStage::AddFeaturesOk, InitAction::ReadStatus),
        (InitStage::AddFeaturesOk, InitEvent::StatusRead(v)) => (
            InitStage::FeaturesOkWritten,
            InitAction::WriteStatus(v | STATUS_FEATURES_OK),
        ),
        (InitStage::FeaturesOkWritten, InitEvent::Written) => (
            InitStage::CheckFeaturesOk,
            InitAction::ReadStatus,
        ),
        (InitStage::CheckFeaturesOk, InitEvent::StatusRead(v)) => if v & STATUS_FEATURES_OK
            == STATUS_FEATURES_OK {
            (InitStage::DeviceSetup, InitAction::DeviceSetup(s.common, s.device))
        } else {
            (InitStage::Done, InitAction::Finish(false))
        },
        (InitStage::DeviceSetup, InitEvent::DeviceSetupDone(ok)) => if ok {
            (InitStage::AddDriverOk, InitAction::ReadStatus)
        } else {
            (InitStage::Done, InitAction::Finish(false))
        },
        (InitStage::AddDriverOk, InitEvent::StatusRead(v)) => (
            InitStage::DriverOkWritten,
            InitAction::WriteStatus(v | STATUS_DRIVER_OK),
        ),
        (InitStage::DriverOkWritten, InitEvent::Written) => (InitStage::Done, InitAction::Finish(true)),
        _ => (InitStage::Done, InitAction::Finish(false)),
    }
}

impl DeviceInit {
    /// Feed `event` to the initialization and get the next action.
    pub fn step(&mut self, event: InitEvent) -> (r: InitAction)
        ensures
            (final(self).stage, r) == init_next(*old(self), event),
            final(self).common_mask == old(self).common_mask,
            final(self).device_mask == old(self).device_mask,
            final(self).device_defined == old(self).device_defined,
            (old(self).stage, event) matches (InitStage::FeaturesWritten, InitEvent::DeviceFeatures(f))
                ==> final(self).common == accepted_common(f, old(self).common_mask)
                && final(self).device == accepted_device(f, old(self).device_mask, old(self).device_defined),
            !((old(self).stage, event) matches (InitStage::FeaturesWritten, InitEvent::DeviceFeatures(_)))
                ==> final(self).common == old(self).common && final(self).device == old(self).device,
    {
        let (stage, action) = match (self.stage, event) {
            (InitStage::Start, _) => (InitStage::ResetWritten, InitAction::WriteStatus(0)),
            (InitStage::ResetWritten, InitEvent::Written) => (InitStage::WaitReset, InitAction::ReadStatus),
            (InitStage::WaitReset, InitEvent::StatusRead(v)) => if v == 0 {
                (InitStage::Acknowledged, InitAction::WriteStatus(STATUS_ACKNOWLEDGE | STATUS_DRIVER))
            } else if v & STATUS_FAILED == STATUS_FAILED {
                (InitStage::Done, InitAction::Finish(false))
            } else {
                (InitStage::WaitReset, InitAction::ReadStatus)
            },
            (InitStage::Acknowledged, InitEvent::Written) => (
                InitStage::FeaturesWritten,
                InitAction::ReadDeviceFeatures,
            ),
            (InitStage::FeaturesWritten, InitEvent::DeviceFeatures(f)) => {
                self.common = ((f & FEATURES_COMMON_ALL) & self.common_mask) | FEATURE_VERSION_1;
                self.device = (f & self.device_mask) & self.device_defined;
                (InitStage::AddFeaturesOk, InitAction::SetFeatures(self.common | self.device))
            },
            (InitStage::AddFeaturesOk, InitEvent::Written) => (InitStage::AddFeaturesOk, InitAction::ReadStatus),
            (InitStage::AddFeaturesOk, InitEvent::StatusRead(v)) => (
                InitStage::FeaturesOkWritten,
                InitAction::WriteStatus(v | STATUS_FEATURES_OK),
            ),
            (InitStage::FeaturesOkWritten, InitEvent::Written) => (
                InitStage::CheckFeaturesOk,
                InitAction::ReadStatus,
            ),
            (InitStage::CheckFeaturesOk, InitEvent::StatusRead(v)) => if v & STATUS_FEATURES_OK
                == STATUS_FEATURES_OK {
                (InitStage::DeviceSetup, InitAction::DeviceSetup(self.common, self.device))
            } else {
                (InitStage::Done, InitAction::Finish(false))
            },
            (InitStage::DeviceSetup, InitEvent::DeviceSetupDone(ok)) => if ok {
                (InitStage::AddDriverOk, InitAction::ReadStatus)
            } else {
                (InitStage::Done, InitAction::Finish(false))
            },
            (InitStage::AddDriverOk, InitEvent::StatusRead(v)) => (
                InitStage::DriverOkWritten,
                InitAction::WriteStatus(v | STATUS_DRIVER_OK),
            ),
            (InitStage::DriverOkWritten, InitEvent::Written) => (InitStage::Done, InitAction::Finish(true)),
            _ => (InitStage::Done, InitAction::Finish(false)),
        };
        self.stage = stage;
        action
    }
}

/// Initialization only reports success from the step after driver-ok was
/// written, and only runs the device setup after features-ok was read back.
pub proof fn lemma_init_success_only_after_driver_ok(s: DeviceInit, event: InitEvent)
    ensures
        init_next(s, event).1 == InitAction::Finish(true) ==> s.stage == InitStage::DriverOkWritten,
        init_next(s, event).1 is DeviceSetup ==> s.stage == InitStage::CheckFeaturesOk && (
        event matches InitEvent::StatusRead(v) && v & STATUS_FEATURES_OK == STATUS_FEATURES_OK),
{
}

/// Whether `v` is a power of two.
pub open spec fn is_power_of_two(v: u16) -> bool {
    exists|k: u16| k < 16 && v == (1u16 << k)
}

/// Whether `v` is a power of two.
pub fn check_power_of_two(v: u16) -> (r: bool)
    ensures
        r == is_power_of_two(v),
{
    let mut k: u16 = 0;
    while k < 16
        invariant
            k <= 16,
            forall|j: u16| j < k ==> v != (1u16 << j),
        decreases 16 - k,
    {
        if v == (1u16 << k) {
            return true;
        }
        k = k + 1;
    }
    false
}

impl VirtIoDevice {
    /// A device over `transport` with `max_queue` empty queues.
    pub fn from_transport(transport: PciTransport, max_queue: usize) -> (r: VirtIoDevice)
        ensures
            r.max_queue == max_queue,
            r.virtqs.len() == max_queue,
            r.transport == transport,
            forall|i: int| 0 <= i < max_queue ==> (#[trigger] r.virtqs@[i]).size == 0,
    {
        let mut virtqs: Vec<VirtQueue> = Vec::new();
        while virtqs.len() < max_queue
            invariant
                virtqs.len() <= max_queue,
                forall|i: int| 0 <= i < virtqs.len() ==> (#[trigger] virtqs@[i]).size == 0,
            decreases max_queue - virtqs.len(),
        {
            virtqs.push(VirtQueue::empty());
        }
        VirtIoDevice { virtqs, transport, max_queue }
    }

    /// Start initializing the device, accepting the common features in
    /// `common_mask` and the device features in `device_mask` that the
    /// device type defines (`device_defined`).
    pub fn init(&self, common_mask: u64, device_mask: u64, device_defined: u64) -> (r: DeviceInit)
        ensures
            r.stage == InitStage::Start,
            r.common_mask == common_mask && r.device_mask == device_mask && r.device_defined
                == device_defined,
    {
        DeviceInit { stage: InitStage::Start, common_mask, device_mask, device_defined, common: 0, device: 0 }
    }

    /// Record `features` as the features the driver accepted, and split them
    /// into the two dwords written to the device.
    pub fn accept_features(&mut self, features: u64) -> (r: (u32, u32))
        ensures
            final(self).transport.feat == features,
            final(self).transport.pci == old(self).transport.pci,
            final(self).transport.common == old(self).transport.common,
            final(self).transport.notify == old(self).transport.notify,
            final(self).transport.isr == old(self).transport.isr,
            final(self).transport.device_cfg == old(self).transport.device_cfg,
            final(self).virtqs@ == old(self).virtqs@,
            final(self).max_queue == old(self).max_queue,
            r.0 == features as u32,
            r.1 == (features >> 32u64) as u32,
    {
        self.transport.feat = features;
        self.transport.common.set_features(features)
    }

    /// Configure queue `qid` (the caller selects it on the device).
    pub fn configure_queue(&self, qid: u16) -> (r: QueueScope)
        requires
            qid < self.max_queue,
        ensures
            r.qid == qid,
    {
        QueueScope { qid }
    }

    /// Queue `qid`, if there is one.
    pub fn get_queue(&self, qid: u16) -> (r: Option<&VirtQueue>)
        ensures
            r is Some <==> qid < self.virtqs.len(),
            r is Some ==> *r->0 == self.virtqs@[qid as int],
    {
        if (qid as usize) < self.virtqs.len() {
            Some(&self.virtqs[qid as usize])
        } else {
            None
        }
    }
}

/// The configuration of one queue.
#[derive(Copy, Clone, Debug)]
pub struct QueueScope {
    pub qid: u16,
}

impl QueueScope {
    /// A builder for the queue, of no size yet.
    pub fn queue_builder(&self) -> (r: QueueBuilder)
        ensures
            r.qid == self.qid && r.size == 0,
    {
        QueueBuilder { qid: self.qid, size: 0 }
    }
}

/// A queue being set up.
#[derive(Copy, Clone, Debug)]
pub struct QueueBuilder {
    pub qid: u16,
    pub size: u16,
}

impl QueueBuilder {
    /// Use `size` entries: it must be a power of two.
    pub fn set_size(self, size: u16) -> (r: Result<QueueBuilder, ()>)
        ensures
            r is Ok <==> is_power_of_two(size),
            r is Ok ==> r->Ok_0.size == size && r->Ok_0.qid == self.qid,
    {
        if check_power_of_two(size) {
            Ok(QueueBuilder { size, ..self })
        } else {
            Err(())
        }
    }

    /// Install the queue in `dev`, notified through `kick`; it uses event
    /// indices when the driver accepted that feature.
    pub fn register(self, dev: &mut VirtIoDevice, kick: Kick) -> (r: Result<(), ()>)
        requires
            self.qid < old(dev).virtqs.len(),
        ensures
            r is Ok,
            final(dev).virtqs.len() == old(dev).virtqs.len(),
            final(dev).transport == old(dev).transport,
            final(dev).max_queue == old(dev).max_queue,
            final(dev).virtqs@[self.qid as int].wf(),
            final(dev).virtqs@[self.qid as int].size == self.size,
            final(dev).virtqs@[self.qid as int].id == self.qid,
            final(dev).virtqs@[self.qid as int].avail.has_used_event == (old(dev).transport.feat
                & FEATURE_RING_EVENT_IDX == FEATURE_RING_EVENT_IDX),
            forall|i: int|
                0 <= i < old(dev).virtqs.len() && i != self.qid ==> final(dev).virtqs@[i] == old(
                    dev,
                ).virtqs@[i],
    {
        let has_event = dev.transport.get_driver_features() & FEATURE_RING_EVENT_IDX
            == FEATURE_RING_EVENT_IDX;
        let q = VirtQueue::new(self.size, self.qid, has_event, kick);
        dev.virtqs.set(self.qid as usize, q);
        Ok(())
    }
}

} // verus!
