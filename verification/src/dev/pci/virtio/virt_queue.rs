//! Split virtqueues: the descriptor table, the available ring and the used
//! ring, and the builder of a descriptor chain.
use vstd::prelude::*;
use crate::addressing::{is_canonical, Pa, VA_TO_PA_OFF};
use crate::dev::mmio::MmioAccessor;

verus! {

broadcast use crate::addressing::group_pa_value;

/// The descriptor continues in the next one.
pub const VIRTQ_DESC_F_NEXT: u16 = 0x1;
/// The device writes the buffer (else it reads it).
pub const VIRTQ_DESC_F_WRITE: u16 = 0x2;
/// The buffer holds a table of descriptors.
pub const VIRTQ_DESC_F_INDIRECT: u16 = 0x4;

/// A buffer descriptor.
#[derive(Copy, Clone, Debug, PartialEq, Eq, Structural)]
pub struct VirtqDesc {
    pub addr: Pa,
    pub len: u32,
    pub flags: u16,
    pub next: u16,
}

/// The descriptor table as the device sees it.
pub struct VirtqDescs {
    pub inner: Vec<VirtqDesc>,
}

/// The descriptor table of a queue of `size` entries.
pub struct VirtqDescContainer {
    pub inner: VirtqDescs,
    pub size: usize,
}

impl VirtqDescContainer {
    /// The table holds `size` descriptors.
    pub open spec fn wf(&self) -> bool {
        self.inner.inner.len() == self.size
    }

    /// A zeroed table whose descriptor `i` links to `i + 1`.
    pub fn new(size: usize) -> (r: VirtqDescContainer)
        requires
            size <= 0x1_0000,
        ensures
            r.wf(),
            r.size == size,
            forall|i: int|
                0 <= i < size ==> #[trigger] r.inner.inner@[i] == (VirtqDesc {
                    addr: Pa::from_value(0),
                    len: 0,
                    flags: 0,
                    next: (i + 1) as u16,
                }),
    {
        let mut v: Vec<VirtqDesc> = Vec::new();
        let mut i: usize = 0;
        while i < size
            invariant
                i <= size <= 0x1_0000,
                v.len() == i,
                forall|j: int|
                    0 <= j < i ==> #[trigger] v@[j] == (VirtqDesc {
                        addr: Pa::from_value(0),
                        len: 0,
                        flags: 0,
                        next: (j + 1) as u16,
                    }),
            decreases size - i,
        {
            v.push(VirtqDesc { addr: Pa::zero(), len: 0, flags: 0, next: (i + 1) as u16 });
            i = i + 1;
        }
        VirtqDescContainer { inner: VirtqDescs { inner: v }, size }
    }

    /// The table.
    pub fn inner(&self) -> (r: &VirtqDescs)
        ensures
            r == &self.inner,
    {
        &self.inner
    }
}

/// The available ring: flags, the index of the next free slot, the ring.
pub struct VirtqAvail {
    pub flags: u16,
    pub idx: u16,
    pub rings: Vec<u16>,
}

/// The available ring of a queue of `size` entries.
pub struct VirtqAvailContainer {
    pub inner: VirtqAvail,
    pub size: usize,
    pub has_used_event: bool,
}

/// A vector of `n` zeros.
fn zeros_u16(n: usize) -> (r: Vec<u16>)
    ensures
        r.len() == n,
        forall|i: int| 0 <= i < n ==> r@[i] == 0,
{
    let mut v: Vec<u16> = Vec::new();
    while v.len() < n
        invariant
            v.len() <= n,
            forall|i: int| 0 <= i < v.len() ==> v@[i] == 0,
        decreases n - v.len(),
    {
        v.push(0);
    }
    v
}

impl VirtqAvailContainer {
    /// The ring holds `size` slots.
    pub open spec fn wf(&self) -> bool {
        self.inner.rings.len() == self.size
    }

    /// A zeroed ring of `size` slots.
    pub fn new(size: usize, has_used_event: bool) -> (r: VirtqAvailContainer)
        ensures
            r.wf(),
            r.size == size,
            r.has_used_event == has_used_event,
            r.inner.flags == 0 && r.inner.idx == 0,
            forall|i: int| 0 <= i < size ==> r.inner.rings@[i] == 0,
    {
        VirtqAvailContainer {
            inner: VirtqAvail { flags: 0, idx: 0, rings: zeros_u16(size) },
            size,
            has_used_event,
        }
    }

    /// The ring.
    pub fn inner(&self) -> (r: &VirtqAvail)
        ensures
            r == &self.inner,
    {
        &self.inner
    }

    /// Offer the chain that starts at descriptor `index`: put it in the next
    /// slot and advance the index, wrapping at 2^16.
    pub fn submit_chain(&mut self, index: u16)
        requires
            old(self).wf(),
            old(self).size > 0,
        ensures
            final(self).wf(),
            final(self).size == old(self).size,
            final(self).has_used_event == old(self).has_used_event,
            final(self).inner.flags == old(self).inner.flags,
            final(self).inner.rings@ == old(self).inner.rings@.update(
                old(self).inner.idx as int % old(self).size as int,
                index,
            ),
            final(self).inner.idx == (old(self).inner.idx + 1) % 0x1_0000,
    {
        let idx = self.inner.idx;
        let slot = (idx as usize) % self.size;
        self.inner.rings.set(slot, index);
        self.inner.idx = idx.wrapping_add(1);
    }
}

/// An element of the used ring: the head of a chain and the bytes written.
#[derive(Copy, Clone, Debug, PartialEq, Eq, Structural)]
pub struct VirtqUsedElem {
    pub id: u32,
    pub len: u32,
}

/// The used ring: flags, the index of the next slot the device fills, the
/// ring.
pub struct VirtqUsed {
    pub flags: u16,
    pub idx: u16,
    pub ring: Vec<VirtqUsedElem>,
}

/// The used ring of a queue of `size` entries.
pub struct VirtqUsedContainer {
    pub inner: VirtqUsed,
    pub size: usize,
}

impl VirtqUsedContainer {
    /// The ring holds `size` slots.
    pub open spec fn wf(&self) -> bool {
        self.inner.ring.len() == self.size
    }

    /// A zeroed ring of `size` slots.
    pub fn new(size: usize) -> (r: VirtqUsedContainer)
        ensures
            r.wf(),
            r.size == size,
            r.inner.flags == 0 && r.inner.idx == 0,
            forall|i: int| 0 <= i < size ==> r.inner.ring@[i] == (VirtqUsedElem { id: 0, len: 0 }),
    {
        let mut v: Vec<VirtqUsedElem> = Vec::new();
        while v.len() < size
            invariant
                v.len() <= size,
                forall|i: int| 0 <= i < v.len() ==> v@[i] == (VirtqUsedElem { id: 0, len: 0 }),
            decreases size - v.len(),
        {
            v.push(VirtqUsedElem { id: 0, len: 0 });
        }
        VirtqUsedContainer { inner: VirtqUsed { flags: 0, idx: 0, ring: v }, size }
    }

    /// The ring.
    pub fn inner(&self) -> (r: &VirtqUsed)
        ensures
            r == &self.inner,
    {
        &self.inner
    }

    /// The index of the next slot the device fills.
    pub fn idx(&self) -> (r: u16)
        ensures
            r == self.inner.idx,
    {
        self.inner.idx
    }

    /// The element at position `index` of the ring, counted modulo its size.
    pub fn get(&self, index: usize) -> (r: VirtqUsedElem)
        requires
            self.wf(),
            self.size > 0,
        ensures
            r == self.inner.ring@[index as int % self.size as int],
    {
        self.inner.ring[index % self.size]
    }
}

/// How the driver notifies the device of new buffers.
#[derive(Copy, Clone, Debug)]
pub enum Kick {
    /// Write the queue index to this register.
    Pci(MmioAccessor),
    Disabled,
}

/// A virtqueue.
pub struct VirtQueue {
    pub desc: VirtqDescContainer,
    pub avail: VirtqAvailContainer,
    pub used: VirtqUsedContainer,
    pub size: u16,
    pub id: u16,
    pub kick: Kick,
}

impl VirtQueue {
    /// The three parts have `size` entries each.
    pub open spec fn wf(&self) -> bool {
        &&& self.desc.wf() && self.avail.wf() && self.used.wf()
        &&& self.desc.size == self.size && self.avail.size == self.size && self.used.size == self.size
    }

    /// A queue of no entries.
    pub fn empty() -> (r: VirtQueue)
        ensures
            r.wf(),
            r.size == 0 && r.id == 0,
            r.kick is Disabled,
            r.avail.has_used_event == false,
            r.avail.inner.flags == 0 && r.avail.inner.idx == 0,
            r.used.inner.flags == 0 && r.used.inner.idx == 0,
    {
        VirtQueue {
            desc: VirtqDescContainer::new(0),
            avail: VirtqAvailContainer::new(0, false),
            used: VirtqUsedContainer::new(0),
            size: 0,
            id: 0,
            kick: Kick::Disabled,
        }
    }

    /// A zeroed queue of `size` entries.
    pub fn new(size: u16, id: u16, has_used_event: bool, kick: Kick) -> (r: VirtQueue)
        ensures
            r.wf(),
            r.size == size && r.id == id,
            r.avail.has_used_event == has_used_event,
            r.avail.inner.idx == 0 && r.used.inner.idx == 0,
    {
        VirtQueue {
            desc: VirtqDescContainer::new(size as usize),
            avail: VirtqAvailContainer::new(size as usize, has_used_event),
            used: VirtqUsedContainer::new(size as usize),
            size,
            id,
            kick,
        }
    }

    /// Start a descriptor chain at descriptor 0.
    pub fn sgl_builder(&mut self) -> (r: VirtqSglBuilder)
        ensures
            r.idx == 0,
    {
        VirtqSglBuilder { idx: 0 }
    }

    /// Number of entries.
    pub fn size(&self) -> (r: u16)
        ensures
            r == self.size,
    {
        self.size
    }

    /// The length the device reported for the chain it completed at used
    /// position `last_seen`.
    pub fn used_len(&self, last_seen: u16) -> (r: usize)
        requires
            self.wf(),
            self.size > 0,
        ensures
            r == self.used.inner.ring@[last_seen as int % self.size as int].len,
    {
        self.used.get(last_seen as usize).len as usize
    }
}

/// A descriptor chain being built: `idx` descriptors are filled.
pub struct VirtqSglBuilder {
    pub idx: usize,
}

/// The descriptor for a buffer at kernel virtual address `va`.
pub open spec fn buffer_desc(va: usize, len: u32, flags: u16, next: u16) -> VirtqDesc {
    VirtqDesc { addr: Pa::from_value((va - VA_TO_PA_OFF) as usize), len, flags, next }
}

impl VirtqSglBuilder {
    /// Append a buffer that the device reads or, with `flags` WRITE, writes.
    fn append(&mut self, q: &mut VirtQueue, va: usize, len: u32, flags: u16)
        requires
            old(q).wf(),
            old(self).idx < old(q).size,
            is_canonical(va),
            va >= VA_TO_PA_OFF,
        ensures
            final(q).wf(),
            final(q).size == old(q).size,
            final(q).avail == old(q).avail && final(q).used == old(q).used,
            final(self).idx == old(self).idx + 1,
            final(q).desc.inner.inner@ == (if old(self).idx == 0 {
                old(q).desc.inner.inner@
            } else {
                old(q).desc.inner.inner@.update(
                    old(self).idx - 1,
                    VirtqDesc {
                        flags: old(q).desc.inner.inner@[old(self).idx - 1].flags | VIRTQ_DESC_F_NEXT,
                        ..old(q).desc.inner.inner@[old(self).idx - 1]
                    },
                )
            }).update(
                old(self).idx as int,
                buffer_desc(va, len, flags, old(q).desc.inner.inner@[old(self).idx as int].next),
            ),
    {
        if self.idx != 0 {
            let prev = q.desc.inner.inner[self.idx - 1];
            q.desc.inner.inner.set(
                self.idx - 1,
                VirtqDesc { flags: prev.flags | VIRTQ_DESC_F_NEXT, ..prev },
            );
        }
        let cur = q.desc.inner.inner[self.idx];
        let pa = crate::addressing::Va::new(va).unwrap().into_pa();
        q.desc.inner.inner.set(self.idx, VirtqDesc { addr: pa, len, flags, next: cur.next });
        self.idx = self.idx + 1;
    }

    /// Append a buffer that the device reads: `va` is its kernel virtual
    /// address and `len` its size.
    pub fn push(&mut self, q: &mut VirtQueue, va: usize, len: u32)
        requires
            old(q).wf(),
            old(self).idx < old(q).size,
            is_canonical(va),
            va >= VA_TO_PA_OFF,
        ensures
            final(q).wf(),
            final(q).size == old(q).size,
            final(self).idx == old(self).idx + 1,
            final(q).desc.inner.inner@[old(self).idx as int] == buffer_desc(
                va,
                len,
                0,
                old(q).desc.inner.inner@[old(self).idx as int].next,
            ),
            final(q).avail == old(q).avail && final(q).used == old(q).used,
            old(self).idx > 0 ==> final(q).desc.inner.inner@[old(self).idx - 1] == (VirtqDesc {
                flags: old(q).desc.inner.inner@[old(self).idx - 1].flags | VIRTQ_DESC_F_NEXT,
                ..old(q).desc.inner.inner@[old(self).idx - 1]
            }),
            forall|i: int|
                0 <= i < old(q).size && i != old(self).idx && i != old(self).idx - 1
                    ==> final(q).desc.inner.inner@[i] == old(q).desc.inner.inner@[i],
    {
        self.append(q, va, len, 0);
    }

    /// Append a buffer that the device writes: `va` is its kernel virtual
    /// address and `len` its size.
    pub fn push_mut(&mut self, q: &mut VirtQueue, va: usize, len: u32)
        requires
            old(q).wf(),
            old(self).idx < old(q).size,
            is_canonical(va),
            va >= VA_TO_PA_OFF,
        ensures
            final(q).wf(),
            final(q).size == old(q).size,
            final(self).idx == old(self).idx + 1,
            final(q).desc.inner.inner@[old(self).idx as int] == buffer_desc(
                va,
                len,
                VIRTQ_DESC_F_WRITE,
                old(q).desc.inner.inner@[old(self).idx as int].next,
            ),
            final(q).avail == old(q).avail && final(q).used == old(q).used,
            old(self).idx > 0 ==> final(q).desc.inner.inner@[old(self).idx - 1] == (VirtqDesc {
                flags: old(q).desc.inner.inner@[old(self).idx - 1].flags | VIRTQ_DESC_F_NEXT,
                ..old(q).desc.inner.inner@[old(self).idx - 1]
            }),
            forall|i: int|
                0 <= i < old(q).size && i != old(self).idx && i != old(self).idx - 1
                    ==> final(q).desc.inner.inner@[i] == old(q).desc.inner.inner@[i],
    {
        self.append(q, va, len, VIRTQ_DESC_F_WRITE);
    }

    /// Offer the chain (it starts at descriptor 0) and give the used index
    /// seen before the device is notified; the chain is complete once the
    /// used index moves past it, and `VirtQueue::used_len` then gives the
    /// length the device reported.
    pub fn finish(self, q: &mut VirtQueue) -> (last_seen: u16)
        requires
            old(q).wf(),
            old(q).size > 0,
        ensures
            final(q).wf(),
            final(q).size == old(q).size,
            final(q).desc.inner.inner@ == old(q).desc.inner.inner@,
            final(q).used == old(q).used,
            final(q).avail.inner.rings@ == old(q).avail.inner.rings@.update(
                old(q).avail.inner.idx as int % old(q).size as int,
                0,
            ),
            final(q).avail.inner.idx == (old(q).avail.inner.idx + 1) % 0x1_0000,
            last_seen == old(q).used.inner.idx,
    {
        q.avail.submit_chain(0);
        q.used.idx()
    }
}

/// Whether each of the descriptors `0..n - 1` points on to the next one.
pub open spec fn linked(descs: Seq<VirtqDesc>, n: int) -> bool {
    forall|i: int| 0 <= i < n - 1 ==> #[trigger] descs[i].flags & VIRTQ_DESC_F_NEXT == VIRTQ_DESC_F_NEXT
}

proof fn lemma_set_next(x: u16)
    by (bit_vector)
    ensures
        (x | 1u16) & 1u16 == 1u16,
{
}

/// Pushing buffers builds a chain: a push at index `k` onto descriptors
/// linked over `0..k` (the previous one gaining NEXT, the others unchanged)
/// leaves them linked over `0..k + 1`, ending with the pushed descriptor.
/// So after `n` pushes from an empty builder, descriptors `0..n - 1` carry
/// NEXT and descriptor `n - 1` is the last pushed.
pub proof fn lemma_push_links(before: Seq<VirtqDesc>, after: Seq<VirtqDesc>, k: int, d: VirtqDesc)
    requires
        0 <= k < before.len(),
        after.len() == before.len(),
        linked(before, k),
        after[k] == d,
        k > 0 ==> after[k - 1] == (VirtqDesc { flags: before[k - 1].flags | VIRTQ_DESC_F_NEXT, ..before[k - 1] }),
        forall|i: int| 0 <= i < before.len() && i != k && i != k - 1 ==> after[i] == before[i],
    ensures
        linked(after, k + 1),
        after[k] == d,
{
    assert forall|i: int| 0 <= i < k implies #[trigger] after[i].flags & VIRTQ_DESC_F_NEXT == VIRTQ_DESC_F_NEXT by {
        if i == k - 1 {
            lemma_set_next(before[k - 1].flags);
        } else {
            assert(before[i].flags & VIRTQ_DESC_F_NEXT == VIRTQ_DESC_F_NEXT);
        }
    }
}

} // verus!
