//! Descriptor tables and the register operand that loads them.
use vstd::prelude::*;
use super::interrupt::{ExceptionType, ExceptionVector, InterruptGateDescriptor, gate};
use super::segmentation::SegmentSelector;

verus! {

/// Number of gates in the interrupt descriptor table.
pub const IDT_ENTRIES: usize = 256;
/// Size in bytes of one gate.
pub const GATE_SIZE: u64 = 16;

/// Local descriptor table.
pub struct LocalDescriptorTable;

/// Global descriptor table.
pub struct GlobalDescriptorTable;

/// X86_64's system table register operand: table size minus one and address.
#[derive(Copy, Clone, Debug, PartialEq, Eq, Structural)]
pub struct SystemTableRegister {
    pub size: u16,
    pub address: u64,
}

impl SystemTableRegister {
    /// The operand for a table of `table_size` bytes at `address`.
    pub fn new(table_size: u64, address: u64) -> (r: SystemTableRegister)
        requires
            table_size as u16 >= 1,
        ensures
            r.size == (table_size as u16) - 1,
            r.address == address,
    {
        SystemTableRegister { size: (table_size as u16) - 1, address }
    }
}

/// Table of interrupt descriptors, one gate per vector.
pub struct InterruptDescriptorTable {
    pub entries: Vec<InterruptGateDescriptor>,
}

/// An all-zero gate.
pub open spec fn empty_gate() -> InterruptGateDescriptor {
    InterruptGateDescriptor { lo: 0, selector: 0, options: 0, mid: 0, hi: 0, rev: 0 }
}

impl InterruptDescriptorTable {
    /// The table holds one gate per vector.
    pub open spec fn wf(&self) -> bool {
        self.entries.len() == IDT_ENTRIES
    }

    /// A table whose gates are all empty.
    pub fn empty() -> (r: InterruptDescriptorTable)
        ensures
            r.wf(),
            forall|i: int| 0 <= i < IDT_ENTRIES ==> r.entries@[i] == empty_gate(),
    {
        let mut entries: Vec<InterruptGateDescriptor> = Vec::new();
        while entries.len() < IDT_ENTRIES
            invariant
                entries.len() <= IDT_ENTRIES,
                forall|i: int| 0 <= i < entries.len() ==> entries@[i] == empty_gate(),
            decreases IDT_ENTRIES - entries.len(),
        {
            entries.push(InterruptGateDescriptor::empty());
        }
        InterruptDescriptorTable { entries }
    }

    /// Point the entry of `vector` at address `handler`.
    pub fn set(
        &mut self,
        vector: ExceptionVector,
        ss: SegmentSelector,
        ty: ExceptionType,
        handler: u64,
    )
        requires
            old(self).wf(),
        ensures
            final(self).wf(),
            final(self).entries@ == old(self).entries@.update(vector.number() as int, gate(ss, ty, handler)),
    {
        let i = vector.into_raw();
        let mut g = InterruptGateDescriptor::empty();
        g.set(ss, ty, handler);
        self.entries.set(i, g);
    }

    /// The register operand that loads this table, which lies at `address`.
    pub fn load(&self, address: u64) -> (r: SystemTableRegister)
        ensures
            r.size == 4095,
            r.address == address,
    {
        SystemTableRegister::new(IDT_ENTRIES as u64 * GATE_SIZE, address)
    }
}

} // verus!
