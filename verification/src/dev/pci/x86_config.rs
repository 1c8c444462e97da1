//! The x86 PCI configuration mechanism: an address written to port 0xCF8
//! selects a dword that port 0xCFC reads and writes.
use vstd::prelude::*;

verus! {

/// Port that selects the configuration dword.
pub const CONFIG_ADDRESS_PORT: u16 = 0xcf8;
/// Port that reads and writes the selected dword.
pub const CONFIG_DATA_PORT: u16 = 0xcfc;

/// The configuration address of register `offset` of a function.
pub open spec fn config_address(bus: u8, slot: u8, func: u8, offset: u8) -> usize {
    (0x8000_0000usize | ((bus as usize) << 16usize) | ((slot as usize) << 11usize) | ((func as usize)
        << 8usize) | (offset as usize)) as usize
}

/// The configuration address carries each of its parts in its own field:
/// the enable bit 31, the bus in bits 16..24, the slot in bits 11..16, the
/// function in bits 8..11 and the register offset in bits 0..8. So any two
/// functions or registers get distinct addresses.
pub proof fn lemma_config_address_fields(bus: u8, slot: u8, func: u8, offset: u8)
    by (bit_vector)
    requires
        slot < 32,
        func < 8,
    ensures
        config_address(bus, slot, func, offset) & 0x8000_0000 == 0x8000_0000,
        (config_address(bus, slot, func, offset) >> 16usize) & 0xff == bus as usize,
        (config_address(bus, slot, func, offset) >> 11usize) & 0x1f == slot as usize,
        (config_address(bus, slot, func, offset) >> 8usize) & 0x7 == func as usize,
        config_address(bus, slot, func, offset) & 0xff == offset as usize,
{
}

/// Distinct functions or registers have distinct configuration addresses.
pub proof fn lemma_config_address_distinct(
    bus: u8, slot: u8, func: u8, offset: u8, bus2: u8, slot2: u8, func2: u8, offset2: u8,
)
    requires
        slot < 32 && slot2 < 32,
        func < 8 && func2 < 8,
        (bus, slot, func, offset) != (bus2, slot2, func2, offset2),
    ensures
        config_address(bus, slot, func, offset) != config_address(bus2, slot2, func2, offset2),
{
    lemma_config_address_fields(bus, slot, func, offset);
    lemma_config_address_fields(bus2, slot2, func2, offset2);
}

/// Bit position of a configuration address within its dword.
pub open spec fn dword_shift(addr: usize) -> u32 {
    ((addr & 3) * 8) as u32
}

/// The two low bits of an address are at most 3.
proof fn lemma_low_two_bits(addr: usize)
    by (bit_vector)
    ensures
        addr & 3 <= 3,
{
}

/// Bit position of a configuration address within its dword.
fn shift_of(addr: usize) -> (r: u32)
    ensures
        r == dword_shift(addr),
        r == 0 || r == 8 || r == 16 || r == 24,
        addr & 3 <= 2 ==> r <= 16,
        addr & 3 == 0 ==> r == 0,
{
    let a = addr & 3;
    proof {
        lemma_low_two_bits(addr);
    }
    (a * 8) as u32
}

/// The x86 configuration mechanism.
#[derive(Copy, Clone, Debug)]
pub struct X86Config;

impl X86Config {
    /// The configuration address of register `offset` of a function.
    pub fn make_address(&self, bus: u8, slot: u8, func: u8, offset: u8) -> (r: usize)
        ensures
            r == config_address(bus, slot, func, offset),
            slot < 32 && func < 8 ==> (r >> 11usize) & 0x1f == slot as usize && (r >> 16usize) & 0xff
                == bus as usize && (r >> 8usize) & 0x7 == func as usize && r & 0xff == offset as usize,
    {
        proof {
            if slot < 32 && func < 8 {
                lemma_config_address_fields(bus, slot, func, offset);
            }
        }
        0x8000_0000usize | ((bus as usize) << 16usize) | ((slot as usize) << 11usize) | ((
        func as usize) << 8usize) | (offset as usize)
    }

    /// The value written to the address port to select the dword of `addr`.
    pub fn port_address(&self, addr: usize) -> (r: u32)
        ensures
            r == (addr & !3usize) as u32,
    {
        (addr & !3usize) as u32
    }

    /// The byte at `addr`, from the dword `dword` read for it.
    pub fn read_u8(&self, addr: usize, dword: u32) -> (r: u8)
        ensures
            r == (dword >> dword_shift(addr)) as u8,
    {
        let shift = shift_of(addr);
        (dword >> shift) as u8
    }

    /// The word at `addr`, from the dword `dword` read for it.
    pub fn read_u16(&self, addr: usize, dword: u32) -> (r: u16)
        requires
            addr & 3 <= 2,
        ensures
            r == (dword >> dword_shift(addr)) as u16,
    {
        let shift = shift_of(addr);
        (dword >> shift) as u16
    }

    /// The dword at `addr`, from the dword `dword` read for it.
    pub fn read_u32(&self, addr: usize, dword: u32) -> (r: u32)
        requires
            addr & 3 == 0,
        ensures
            r == dword,
    {
        dword
    }

    /// The dword to write so that the byte at `addr` becomes `v`, from the
    /// dword `dword` read for it.
    pub fn write_u8(&self, addr: usize, dword: u32, v: u8) -> (r: u32)
        ensures
            r == (dword & !(0xffu32 << dword_shift(addr))) | ((v as u32) << dword_shift(addr)),
    {
        let shift = shift_of(addr);
        (dword & !(0xffu32 << shift)) | ((v as u32) << shift)
    }

    /// The dword to write so that the word at `addr` becomes `v`, from the
    /// dword `dword` read for it.
    pub fn write_u16(&self, addr: usize, dword: u32, v: u16) -> (r: u32)
        requires
            addr & 3 <= 2,
        ensures
            r == (dword & !(0xffffu32 << dword_shift(addr))) | ((v as u32) << dword_shift(addr)),
    {
        let shift = shift_of(addr);
        (dword & !(0xffffu32 << shift)) | ((v as u32) << shift)
    }

    /// The dword to write so that the dword at `addr` becomes `v`.
    pub fn write_u32(&self, addr: usize, v: u32) -> (r: u32)
        requires
            addr & 3 == 0,
        ensures
            r == v,
    {
        v
    }
}

/// Writing a byte and reading it back gives the byte written.
pub proof fn lemma_write_read_u8(addr: usize, dword: u32, v: u8)
    ensures
        (((dword & !(0xffu32 << dword_shift(addr))) | ((v as u32) << dword_shift(addr)))
            >> dword_shift(addr)) as u8 == v,
{
    let s = dword_shift(addr);
    assert(s == 0 || s == 8 || s == 16 || s == 24) by {
        lemma_low_two_bits(addr);
    }
    assert((((dword & !(0xffu32 << s)) | ((v as u32) << s)) >> s) as u8 == v) by (bit_vector)
        requires
            s == 0 || s == 8 || s == 16 || s == 24,
    ;
}

} // verus!
