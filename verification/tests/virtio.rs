use lib::addressing::Pa;
use lib::dev::pci::bar::{Bar, MemorySpace};
use lib::dev::pci::header::PciHeader;
use lib::dev::pci::virtio::block::tys::{VirtIoBlockResp, VirtIoBlockType};
use lib::dev::pci::virtio::block::{plan_bios, BioBatch, BioPlan, BioStep};
use lib::dev::pci::virtio::pci::{
    try_get_configurations, CommonCfgRegister, PciTransport, VirtIoCapability, VirtIoPciCommonCfg,
};
use lib::dev::pci::virtio::tys::DeviceType;
use lib::dev::pci::virtio::virt_queue::{Kick, VirtQueue, VIRTQ_DESC_F_NEXT, VIRTQ_DESC_F_WRITE};
use lib::dev::pci::virtio::{
    check_power_of_two, DeviceInit, InitAction, InitEvent, InitStage, QueueBuilder, VirtIoDevice,
};
use lib::dev::pci::PciDevice;

#[test]
fn descriptor_chain() {
    let mut q = VirtQueue::new(8, 0, false, Kick::Disabled);
    assert_eq!(q.size(), 8);
    assert_eq!(q.desc.inner.inner[3].next, 4);
    let mut tx = q.sgl_builder();
    tx.push(&mut q, 0xffff_ff00_0010_0000, 16);
    tx.push_mut(&mut q, 0xffff_ff00_0020_0000, 512);
    tx.push_mut(&mut q, 0xffff_ff00_0030_0000, 1);
    assert_eq!(q.desc.inner.inner[0].addr.into_usize(), 0x10_0000);
    assert_eq!(q.desc.inner.inner[0].flags, VIRTQ_DESC_F_NEXT);
    assert_eq!(q.desc.inner.inner[1].flags, VIRTQ_DESC_F_WRITE | VIRTQ_DESC_F_NEXT);
    assert_eq!(q.desc.inner.inner[2].flags, VIRTQ_DESC_F_WRITE);
    assert_eq!(q.desc.inner.inner[1].len, 512);
    let last_seen = tx.finish(&mut q);
    assert_eq!(last_seen, 0);
    assert_eq!(q.avail.inner.idx, 1);
    assert_eq!(q.avail.inner.rings[0], 0);
    assert_eq!(q.used_len(last_seen), 0);
}

#[test]
fn available_index_wraps() {
    let mut q = VirtQueue::new(4, 0, false, Kick::Disabled);
    q.avail.inner.idx = u16::MAX;
    q.avail.submit_chain(2);
    assert_eq!(q.avail.inner.idx, 0);
    assert_eq!(q.avail.inner.rings[3], 2);
}

#[test]
fn bio_batches() {
    let bios = vec![(0usize, 512usize), (512, 512), (1024, 512), (4096, 512), (100, 512)];
    let (batches, ok) = plan_bios(&bios, 512, 4);
    assert!(!ok);
    assert_eq!(
        batches,
        vec![
            BioBatch { sector: 0, first: 0, count: 2 },
            BioBatch { sector: 2, first: 2, count: 1 },
            BioBatch { sector: 8, first: 3, count: 1 },
        ]
    );
    let (batches, ok) = plan_bios(&bios[..3].to_vec(), 512, 8);
    assert!(ok);
    assert_eq!(batches, vec![BioBatch { sector: 0, first: 0, count: 3 }]);
}

#[test]
fn device_initialization_success() {
    let mut init = DeviceInit {
        stage: InitStage::Start,
        common_mask: 0,
        device_mask: 0x6ef7,
        device_defined: 0x6ef7,
        common: 0,
        device: 0,
    };
    assert_eq!(init.step(InitEvent::Written), InitAction::WriteStatus(0));
    assert_eq!(init.step(InitEvent::Written), InitAction::ReadStatus);
    assert_eq!(init.step(InitEvent::StatusRead(1)), InitAction::ReadStatus);
    assert_eq!(init.step(InitEvent::StatusRead(0)), InitAction::WriteStatus(3));
    assert_eq!(init.step(InitEvent::Written), InitAction::ReadDeviceFeatures);
    let offered = 0x1_3000_0044u64;
    assert_eq!(init.step(InitEvent::DeviceFeatures(offered)), InitAction::SetFeatures(0x1_0000_0044));
    assert_eq!(init.step(InitEvent::Written), InitAction::ReadStatus);
    assert_eq!(init.step(InitEvent::StatusRead(3)), InitAction::WriteStatus(0xb));
    assert_eq!(init.step(InitEvent::Written), InitAction::ReadStatus);
    assert_eq!(init.step(InitEvent::StatusRead(0xb)), InitAction::DeviceSetup(0x1_0000_0000, 0x44));
    assert_eq!(init.step(InitEvent::DeviceSetupDone(true)), InitAction::ReadStatus);
    assert_eq!(init.step(InitEvent::StatusRead(0xb)), InitAction::WriteStatus(0xf));
    assert_eq!(init.step(InitEvent::Written), InitAction::Finish(true));
    assert_eq!(init.stage, InitStage::Done);
}

#[test]
fn device_initialization_failures() {
    let mut init = DeviceInit {
        stage: InitStage::WaitReset,
        common_mask: 0,
        device_mask: 0,
        device_defined: 0,
        common: 0,
        device: 0,
    };
    assert_eq!(init.step(InitEvent::StatusRead(0x80)), InitAction::Finish(false));
    let mut init = DeviceInit { stage: InitStage::CheckFeaturesOk, ..init };
    assert_eq!(init.step(InitEvent::StatusRead(0x3)), InitAction::Finish(false));
}

#[test]
fn queue_sizes() {
    assert!(check_power_of_two(256));
    assert!(check_power_of_two(1));
    assert!(!check_power_of_two(0));
    assert!(!check_power_of_two(384));
    let b = QueueBuilder { qid: 0, size: 0 };
    assert_eq!(b.set_size(128).unwrap().size, 128);
    assert!(b.set_size(100).is_err());
}

#[test]
fn features_split() {
    let cfg_area = MemorySpace { base: Pa::new(0x1000).unwrap(), length: 0x100, prefetchable: false }.all();
    let common = VirtIoPciCommonCfg { area: cfg_area };
    assert_eq!(common.get_device_features(0x44, 0x1), 0x1_0000_0044);
    assert_eq!(common.set_features(0x1_0000_0044), (0x44, 0x1));
}

fn cap(ty: u8, bar: u8, offset: u32, length: u32) -> VirtIoCapability {
    VirtIoCapability { vendor: 9, ty, bar, offset, length, notify_off_multiplier: 4 }
}

#[test]
fn configurations_from_capabilities() {
    let bar4 = Bar::MemorySpace(MemorySpace {
        base: Pa::new(0xfe00_0000).unwrap(),
        length: 0x4000,
        prefetchable: true,
    });
    let bars = vec![None, None, None, None, Some(bar4), None];
    let caps = vec![
        cap(1, 4, 0x0, 0x38),
        cap(3, 4, 0x1000, 0x4),
        cap(4, 4, 0x2000, 0x40),
        cap(2, 4, 0x3000, 0x1000),
        VirtIoCapability { vendor: 0x11, ty: 1, bar: 0, offset: 0, length: 0, notify_off_multiplier: 0 },
    ];
    let (common, device, isr, notify) = try_get_configurations(&caps, &bars).unwrap();
    assert_eq!(common.area.0.start.into_usize(), 0xfe00_0000);
    assert_eq!(common.area.0.end.into_usize(), 0xfe00_0038);
    assert_eq!(isr.area.0.start.into_usize(), 0xfe00_1000);
    assert_eq!(device.0.start.into_usize(), 0xfe00_2000);
    assert_eq!(notify.offset, 0x3000);
    assert_eq!(notify.mult, 4);
    assert!(try_get_configurations(&caps[..3].to_vec(), &bars).is_none());
    let mut bad = caps.clone();
    bad.push(cap(1, 4, 0x3ff0, 0x38));
    assert!(try_get_configurations(&bad, &bars).is_none());
}

#[test]
fn device_types_and_responses() {
    assert_eq!(DeviceType::try_from(2), Some(DeviceType::Block));
    assert_eq!(DeviceType::try_from(16), Some(DeviceType::Gpu));
    assert_eq!(DeviceType::try_from(14), None);
    assert_eq!(DeviceType::try_from(25), None);
    assert_eq!(VirtIoBlockResp::from_status(0), Some(VirtIoBlockResp::Success));
    assert_eq!(VirtIoBlockResp::from_status(2), Some(VirtIoBlockResp::Unsupported));
    assert_eq!(VirtIoBlockResp::from_status(3), None);
    let _ = VirtIoBlockType::Flush;
    let _ = PciHeader { pci_device: PciDevice { bus: 0, device: 0 }, function: 0 };
}

#[test]
fn common_configuration_registers() {
    let bar4 = Bar::MemorySpace(MemorySpace {
        base: Pa::new(0xfe00_0000).unwrap(),
        length: 0x4000,
        prefetchable: true,
    });
    let bars = vec![None, None, None, None, Some(bar4), None];
    let caps = vec![
        cap(1, 4, 0x0, 0x38),
        cap(3, 4, 0x1000, 0x4),
        cap(4, 4, 0x2000, 0x40),
        cap(2, 4, 0x3000, 0x1000),
    ];
    let pci = PciHeader { pci_device: PciDevice { bus: 0, device: 4 }, function: 0 };
    let transport = PciTransport::new(pci, &caps, &bars);
    let status = transport.common.register(CommonCfgRegister::DeviceStatus);
    assert_eq!(status.addr, 0xfe00_0014);
    assert!(status.readable && status.writable);
    let features = transport.common.register(CommonCfgRegister::DeviceFeatures);
    assert_eq!(features.addr, 0xfe00_0004);
    assert!(features.readable && !features.writable);
    let (select, idx) = transport.select_queue(2);
    assert_eq!((select.addr, idx), (0xfe00_0016, 2));
    assert_eq!(transport.queue_size().addr, 0xfe00_0018);
    assert_eq!(transport.common.register(CommonCfgRegister::QueueDevice).addr, 0xfe00_0030);
    let writes = transport.register_virtqueue(
        64,
        Pa::new(0x10_0000).unwrap(),
        Pa::new(0x10_1000).unwrap(),
        Pa::new(0x10_2000).unwrap(),
    );
    let got: Vec<(usize, u64)> = writes.iter().map(|(a, v)| (a.addr, *v)).collect();
    assert_eq!(
        got,
        vec![
            (0xfe00_0018, 64),
            (0xfe00_0020, 0x10_0000),
            (0xfe00_0028, 0x10_1000),
            (0xfe00_0030, 0x10_2000),
            (0xfe00_001c, 1),
        ]
    );
}

fn test_transport() -> PciTransport {
    let bar4 = Bar::MemorySpace(MemorySpace {
        base: Pa::new(0xfe00_0000).unwrap(),
        length: 0x4000,
        prefetchable: true,
    });
    let bars = vec![None, None, None, None, Some(bar4), None];
    let caps = vec![
        cap(1, 4, 0x0, 0x38),
        cap(3, 4, 0x1000, 0x4),
        cap(4, 4, 0x2000, 0x40),
        cap(2, 4, 0x3000, 0x1000),
    ];
    let pci = PciHeader { pci_device: PciDevice { bus: 0, device: 4 }, function: 0 };
    PciTransport::new(pci, &caps, &bars)
}

#[test]
fn accepted_features_are_recorded() {
    let mut dev = VirtIoDevice::from_transport(test_transport(), 2);
    assert_eq!(dev.transport.get_driver_features(), 0);
    let features = (1u64 << 32) | (1u64 << 29) | 0x4;
    assert_eq!(dev.accept_features(features), (0x2000_0004, 1));
    assert_eq!(dev.transport.get_driver_features(), features);
    // Event indices were accepted: the queue uses them.
    let q = QueueBuilder { qid: 1, size: 8 };
    assert!(q.register(&mut dev, Kick::Disabled).is_ok());
    assert!(dev.virtqs[1].avail.has_used_event);

    let mut plain = VirtIoDevice::from_transport(test_transport(), 1);
    plain.accept_features(1u64 << 32);
    let q = QueueBuilder { qid: 0, size: 8 };
    assert!(q.register(&mut plain, Kick::Disabled).is_ok());
    assert!(!plain.virtqs[0].avail.has_used_event);
}

#[test]
fn carrying_out_a_plan() {
    let b0 = BioBatch { sector: 0, first: 0, count: 2 };
    let b1 = BioBatch { sector: 8, first: 2, count: 1 };
    let plan = BioPlan { ty: VirtIoBlockType::In, batches: vec![b0, b1], aligned: true };
    assert_eq!(plan.next_step(0, None), BioStep::Submit(b0));
    assert_eq!(plan.next_step(1, Some(0)), BioStep::Submit(b1));
    assert_eq!(plan.next_step(2, Some(0)), BioStep::Finish(true));
    // A device error fails the request at once.
    assert_eq!(plan.next_step(1, Some(1)), BioStep::Finish(false));
    // An unaligned buffer after the batches fails it once they are done.
    let cut = BioPlan { ty: VirtIoBlockType::Out, batches: vec![b0], aligned: false };
    assert_eq!(cut.next_step(1, Some(0)), BioStep::Finish(false));
    // Unaligned from the start: no request is sent.
    let none = BioPlan { ty: VirtIoBlockType::In, batches: vec![], aligned: false };
    assert_eq!(none.next_step(0, None), BioStep::Finish(false));
}
