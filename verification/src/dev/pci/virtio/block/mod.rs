//! The VirtIO block device: a virtual disk whose requests go through one
//! virtqueue.
use vstd::prelude::*;

pub mod tys;

use crate::dev::pci::bar::Bar;
use crate::dev::pci::PciDeviceHeader;
use super::pci::{bars_ok, configurations, PciTransport, VirtIoCapability};
use super::{DeviceInit, InitStage, VirtIoDevice};
use tys::{VirtIoBlockType, BLK_F_ALL};

verus! {

/// A block device.
pub struct VirtIoBlock {
    pub dev: VirtIoDevice,
    pub block_size: usize,
    pub block_count: usize,
}

/// Consecutive buffers served by one request: the sector of the first and
/// the range of buffers.
#[derive(Copy, Clone, Debug, PartialEq, Eq, Structural)]
pub struct BioBatch {
    pub sector: u64,
    pub first: usize,
    pub count: usize,
}

/// The requests for a list of buffers: the kind, the batches, and whether
/// every batch start was block-aligned (the batches stop before the first
/// that was not).
pub struct BioPlan {
    pub ty: VirtIoBlockType,
    pub batches: Vec<BioBatch>,
    pub aligned: bool,
}

/// How many buffers from `j` continue a request that expects the byte
/// offset `expected` next, with `remain` descriptors left.
pub open spec fn batch_extent(bios: Seq<(usize, usize)>, j: int, expected: int, remain: int) -> nat
    decreases bios.len() - j,
{
    if 0 <= j < bios.len() && remain > 0 && bios[j].0 == expected {
        1 + batch_extent(bios, j + 1, expected + bios[j].1, remain - 1)
    } else {
        0
    }
}

/// The batches for buffers `(offset, length)` from `i`: a batch starts at
/// a block-aligned buffer and takes the buffers that follow it in place,
/// up to `remain` more; an unaligned start ends the plan unsuccessfully.
pub open spec fn plan_from(bios: Seq<(usize, usize)>, bs: int, remain: int, i: int) -> (
    Seq<BioBatch>,
    bool,
)
    decreases (if i < bios.len() {
        bios.len() - i
    } else {
        0
    }),
{
    if i < 0 || i >= bios.len() {
        (Seq::empty(), true)
    } else {
        let ofs = bios[i].0 as int;
        let len = bios[i].1 as int;
        if ofs % bs != 0 || len % bs != 0 {
            (Seq::empty(), false)
        } else {
            let n = batch_extent(bios, i + 1, ofs + len, remain);
            let rest = plan_from(bios, bs, remain, i + 1 + n);
            (
                seq![BioBatch { sector: (ofs / bs) as u64, first: i as usize, count: (1 + n) as usize }]
                    + rest.0,
                rest.1,
            )
        }
    }
}

/// Every buffer ends below the top of the address space.
pub open spec fn bios_ok(bios: Seq<(usize, usize)>) -> bool {
    forall|i: int| 0 <= i < bios.len() ==> #[trigger] bios[i].0 + bios[i].1 <= usize::MAX
}

/// The batches for `bios` on a disk of `block_size`-byte blocks whose queue
/// has `queue_size` entries (three go to the header, the first buffer and
/// the status).
pub fn plan_bios(bios: &Vec<(usize, usize)>, block_size: usize, queue_size: u16) -> (r: (
    Vec<BioBatch>,
    bool,
))
    requires
        block_size > 0,
        queue_size >= 3,
        bios_ok(bios@),
    ensures
        r.0@ == plan_from(bios@, block_size as int, queue_size - 3, 0).0,
        r.1 == plan_from(bios@, block_size as int, queue_size - 3, 0).1,
{
    let ghost bs = block_size as int;
    let ghost r0 = queue_size - 3;
    let mut out: Vec<BioBatch> = Vec::new();
    let mut i: usize = 0;
    let n = bios.len();
    while i < n
        invariant
            n == bios.len(),
            block_size > 0,
            queue_size >= 3,
            r0 == queue_size - 3,
            bs == block_size,
            bios_ok(bios@),
            i <= n,
            plan_from(bios@, bs, r0, 0).0 == out@ + plan_from(bios@, bs, r0, i as int).0,
            plan_from(bios@, bs, r0, 0).1 == plan_from(bios@, bs, r0, i as int).1,
        decreases n - i,
    {
        let (ofs, len) = bios[i];
        if ofs % block_size != 0 || len % block_size != 0 {
            return (out, false);
        }
        assert(bios@[i as int].0 + bios@[i as int].1 <= usize::MAX);
        let mut remain: u16 = queue_size - 3;
        let mut expected: usize = ofs + len;
        let mut j: usize = i + 1;
        while j < n && remain != 0 && bios[j].0 == expected
            invariant
                n == bios.len(),
                bios_ok(bios@),
                i < j <= n,
                batch_extent(bios@, i + 1, ofs + len, r0) == (j - (i + 1)) + batch_extent(
                    bios@,
                    j as int,
                    expected as int,
                    remain as int,
                ),
            decreases n - j,
        {
            assert(bios@[j as int].0 + bios@[j as int].1 <= usize::MAX);
            expected = expected + bios[j].1;
            remain = remain - 1;
            j = j + 1;
        }
        let ghost before = out@;
        out.push(BioBatch { sector: (ofs / block_size) as u64, first: i, count: j - i });
        proof {
            let rest = plan_from(bios@, bs, r0, j as int);
            assert(plan_from(bios@, bs, r0, i as int).0 == seq![
                BioBatch { sector: (ofs / block_size) as u64, first: i, count: (j - i) as usize },
            ] + rest.0);
            assert(out@ + rest.0 =~= before + plan_from(bios@, bs, r0, i as int).0);
        }
        i = j;
    }
    (out, true)
}

impl VirtIoBlock {
    /// The block device of a type-0 PCI function, from its VirtIO
    /// capabilities and BARs and the block size and capacity read from its
    /// device configuration; any other header is refused.
    pub fn from_pci(
        pci: PciDeviceHeader,
        caps: &Vec<VirtIoCapability>,
        bars: &Vec<Option<Bar>>,
        blk_size: u16,
        capacity: u64,
    ) -> (r: Result<VirtIoBlock, ()>)
        requires
            pci is Type0 ==> bars_ok(bars@) && configurations(caps@, bars@) is Some,
            capacity <= usize::MAX,
        ensures
            r is Ok <==> pci is Type0,
            r is Ok ==> r->Ok_0.block_size == blk_size && r->Ok_0.block_count == capacity
                && r->Ok_0.dev.max_queue == 1 && r->Ok_0.dev.virtqs.len() == 1
                && r->Ok_0.dev.transport.pci == pci->Type0_0,
    {
        match pci {
            PciDeviceHeader::Type0(h) => {
                let conf = PciTransport::new(h, caps, bars);
                Ok(
                    VirtIoBlock {
                        dev: VirtIoDevice::from_transport(conf, 1),
                        block_size: blk_size as usize,
                        block_count: capacity as usize,
                    },
                )
            },
            _ => Err(()),
        }
    }

    /// Start initializing the device: no optional common feature, every
    /// block feature.
    pub fn init(&self) -> (r: DeviceInit)
        ensures
            r.stage == InitStage::Start,
            r.common_mask == 0 && r.device_mask == BLK_F_ALL && r.device_defined == BLK_F_ALL,
    {
        self.dev.init(0, BLK_F_ALL, BLK_F_ALL)
    }

    /// Number of blocks.
    pub fn block_cnt(&self) -> (r: usize)
        ensures
            r == self.block_count,
    {
        self.block_count
    }

    /// Size of a block in bytes.
    pub fn block_size(&self) -> (r: usize)
        ensures
            r == self.block_size,
    {
        self.block_size
    }

    /// The read requests for buffers `(byte offset, length)`.
    pub fn read_bios(&self, bios: &Vec<(usize, usize)>) -> (r: BioPlan)
        requires
            self.block_size > 0,
            self.dev.virtqs.len() >= 1,
            self.dev.virtqs@[0].size >= 3,
            bios_ok(bios@),
        ensures
            r.ty == VirtIoBlockType::In,
            r.batches@ == plan_from(bios@, self.block_size as int, self.dev.virtqs@[0].size - 3, 0).0,
            r.aligned == plan_from(bios@, self.block_size as int, self.dev.virtqs@[0].size - 3, 0).1,
    {
        let (batches, aligned) = plan_bios(bios, self.block_size, self.dev.virtqs[0].size());
        BioPlan { ty: VirtIoBlockType::In, batches, aligned }
    }

    /// The write requests for buffers `(byte offset, length)`.
    pub fn write_bios(&self, bios: &Vec<(usize, usize)>) -> (r: BioPlan)
        requires
            self.block_size > 0,
            self.dev.virtqs.len() >= 1,
            self.dev.virtqs@[0].size >= 3,
            bios_ok(bios@),
        ensures
            r.ty == VirtIoBlockType::Out,
            r.batches@ == plan_from(bios@, self.block_size as int, self.dev.virtqs@[0].size - 3, 0).0,
            r.aligned == plan_from(bios@, self.block_size as int, self.dev.virtqs@[0].size - 3, 0).1,
    {
        let (batches, aligned) = plan_bios(bios, self.block_size, self.dev.virtqs[0].size());
        BioPlan { ty: VirtIoBlockType::Out, batches, aligned }
    }
}

/// What carrying out a request plan does next.
#[derive(Copy, Clone, Debug, PartialEq, Eq, Structural)]
pub enum BioStep {
    /// Send this batch as one request and wait for the device's status.
    Submit(BioBatch),
    /// The requests are over; whether they succeeded.
    Finish(bool),
}

impl BioPlan {
    /// The step after the first `done` batches were sent, every one before
    /// the last answered with status 0 (success) and the last answered with
    /// `status` (`None` before the first): a status other than success fails
    /// the whole request; after every batch, a buffer that did not start on
    /// a block boundary fails it, so that one at the very start fails it
    /// before any request is sent.
    pub fn next_step(&self, done: usize, status: Option<u8>) -> (r: BioStep)
        requires
            done <= self.batches.len(),
            done == 0 <==> status is None,
        ensures
            r == (if status matches Some(v) && v != 0 {
                BioStep::Finish(false)
            } else if done < self.batches.len() {
                BioStep::Submit(self.batches@[done as int])
            } else if self.aligned {
                BioStep::Finish(true)
            } else {
                BioStep::Finish(false)
            }),
    {
        if let Some(v) = status {
            if v != 0 {
                return BioStep::Finish(false);
            }
        }
        if done < self.batches.len() {
            BioStep::Submit(self.batches[done])
        } else if self.aligned {
            BioStep::Finish(true)
        } else {
            BioStep::Finish(false)
        }
    }
}

} // verus!
