//! The address decoder: which memory array, if any, backs a location.
//!
//! Banks `0x00..=0x0F` hold low RAM in their lower half (up to `0x7EFF`), a
//! window without backing at `0x7F00..=0x7FFF`, and flash ROM in their upper half.
//! Banks `0x20..=0x3F` hold high RAM. Everything else is unmapped.

use vstd::prelude::*;

verus! {

pub const LOW_RAM_SIZE: usize = 0x80000;

pub const FLASH_ROM_SIZE: usize = 0x80000;

pub const HIGH_RAM_SIZE: usize = 0x200000;

/// Whether a read of `bank:addr` is backed by memory.
pub open spec fn readable(bank: u8, addr: u16) -> bool {
    (bank <= 0x0F && (addr <= 0x7EFF || addr >= 0x8000)) || (0x20 <= bank <= 0x3F)
}

/// Whether a write to `bank:addr` is backed by writable memory.
pub open spec fn writable(bank: u8, addr: u16) -> bool {
    (bank <= 0x0F && addr <= 0x7EFF) || (0x20 <= bank <= 0x3F)
}

/// The contents of the bus as mathematical sequences.
pub struct BusView {
    pub low_ram: Seq<u8>,
    pub flash_rom: Seq<u8>,
    pub high_ram: Seq<u8>,
    pub cycles: u64,
}

impl BusView {
    /// The three arrays have their full sizes.
    pub open spec fn wf(self) -> bool {
        &&& self.low_ram.len() == LOW_RAM_SIZE
        &&& self.flash_rom.len() == FLASH_ROM_SIZE
        &&& self.high_ram.len() == HIGH_RAM_SIZE
    }

    /// One more access has been counted; the counter wraps.
    pub open spec fn ticked(self) -> BusView {
        BusView { cycles: self.cycles.wrapping_add(1), ..self }
    }

    /// The byte stored at a readable location.
    pub open spec fn value(self, bank: u8, addr: u16) -> u8 {
        if bank <= 0x0F {
            if addr <= 0x7EFF {
                self.low_ram[bank * 0x8000 + addr]
            } else {
                self.flash_rom[bank * 0x8000 + (addr - 0x8000)]
            }
        } else {
            self.high_ram[(bank - 0x20) * 0x8000 + addr]
        }
    }

    /// The bus after a read of a readable location.
    pub open spec fn read(self, bank: u8, addr: u16) -> BusView {
        self.ticked()
    }

    /// The bus after a write to a writable location.
    pub open spec fn write(self, bank: u8, addr: u16, value: u8) -> BusView {
        if bank <= 0x0F {
            BusView { low_ram: self.low_ram.update(bank * 0x8000 + addr, value), ..self.ticked() }
        } else {
            BusView {
                high_ram: self.high_ram.update((bank - 0x20) * 0x8000 + addr, value),
                ..self.ticked()
            }
        }
    }
}

pub struct Bus {
    low_ram: Vec<u8>,
    flash_rom: Vec<u8>,
    high_ram: Vec<u8>,
    cycles: u64,
}

impl View for Bus {
    type V = BusView;

    /// The three arrays and the access count.
    closed spec fn view(&self) -> BusView {
        BusView {
            low_ram: self.low_ram@,
            flash_rom: self.flash_rom@,
            high_ram: self.high_ram@,
            cycles: self.cycles,
        }
    }
}

impl Bus {
    /// A bus whose flash ROM holds `flash_rom` and whose RAM is all zero.
    pub fn new(flash_rom: Vec<u8>) -> (bus: Bus)
        requires
            flash_rom@.len() == FLASH_ROM_SIZE,
        ensures
            bus@.wf(),
            bus@.flash_rom == flash_rom@,
            bus@.low_ram == Seq::new(LOW_RAM_SIZE as nat, |i: int| 0u8),
            bus@.high_ram == Seq::new(HIGH_RAM_SIZE as nat, |i: int| 0u8),
            bus@.cycles == 0,
    {
        let low_ram: Vec<u8> = vec![0u8; LOW_RAM_SIZE];
        let high_ram: Vec<u8> = vec![0u8; HIGH_RAM_SIZE];
        assert(low_ram@ =~= Seq::new(LOW_RAM_SIZE as nat, |i: int| 0u8));
        assert(high_ram@ =~= Seq::new(HIGH_RAM_SIZE as nat, |i: int| 0u8));
        Bus { low_ram, flash_rom, high_ram, cycles: 0 }
    }

    /// The number of accesses so far, modulo 2^64.
    pub fn cycles(&self) -> (n: u64)
        ensures
            n == self@.cycles,
    {
        self.cycles
    }

    /// Counts one access.
    fn cycle(&mut self)
        ensures
            final(self).low_ram == old(self).low_ram,
            final(self).flash_rom == old(self).flash_rom,
            final(self).high_ram == old(self).high_ram,
            final(self)@ == old(self)@.ticked(),
    {
        self.cycles = self.cycles.wrapping_add(1);
    }

    /// Whether a read of `bank:addr` is backed by memory.
    pub fn can_read(bank: u8, addr: u16) -> (b: bool)
        ensures
            b == readable(bank, addr),
    {
        (bank <= 0x0F && (addr <= 0x7EFF || addr >= 0x8000)) || (0x20 <= bank && bank <= 0x3F)
    }

    /// Whether a write to `bank:addr` is backed by writable memory.
    pub fn can_write(bank: u8, addr: u16) -> (b: bool)
        ensures
            b == writable(bank, addr),
    {
        (bank <= 0x0F && addr <= 0x7EFF) || (0x20 <= bank && bank <= 0x3F)
    }

    /// Reads the byte at `bank:addr` and counts the access.
    pub fn read(&mut self, bank: u8, addr: u16) -> (value: u8)
        requires
            old(self)@.wf(),
            readable(bank, addr),
        ensures
            final(self)@.wf(),
            final(self)@ == old(self)@.read(bank, addr),
            value == old(self)@.value(bank, addr),
    {
        self.cycle();
        if bank <= 0x0F {
            if addr <= 0x7EFF {
                self.low_ram[bank as usize * 0x8000 + addr as usize]
            } else {
                self.flash_rom[bank as usize * 0x8000 + (addr as usize - 0x8000)]
            }
        } else {
            self.high_ram[(bank - 0x20) as usize * 0x8000 + addr as usize]
        }
    }

    /// Stores `value` at `bank:addr` and counts the access.
    pub fn write(&mut self, bank: u8, addr: u16, value: u8)
        requires
            old(self)@.wf(),
            writable(bank, addr),
        ensures
            final(self)@.wf(),
            final(self)@ == old(self)@.write(bank, addr, value),
    {
        self.cycle();
        if bank <= 0x0F {
            self.low_ram.set(bank as usize * 0x8000 + addr as usize, value);
        } else {
            self.high_ram.set((bank - 0x20) as usize * 0x8000 + addr as usize, value);
        }
    }
}

/// Whether two locations are backed by the same byte of RAM. The banks of
/// high RAM lie half a bank apart in their array, so the upper half of one
/// is the lower half of the next.
pub open spec fn same_cell(bank: u8, addr: u16, other_bank: u8, other_addr: u16) -> bool {
    if bank <= 0x0F {
        other_bank == bank && other_addr == addr
    } else {
        other_bank >= 0x20 && (bank - 0x20) * 0x8000 + addr == (other_bank - 0x20) * 0x8000
            + other_addr
    }
}

/// A byte written is the byte read back from the same location.
pub proof fn lemma_read_after_write(bus: BusView, bank: u8, addr: u16, value: u8)
    requires
        bus.wf(),
        writable(bank, addr),
    ensures
        readable(bank, addr),
        bus.write(bank, addr, value).wf(),
        bus.write(bank, addr, value).value(bank, addr) == value,
{
}

/// A write changes no location but those backed by the byte written:
/// flash ROM never changes, and RAM only in that one byte.
pub proof fn lemma_write_leaves_others(
    bus: BusView,
    bank: u8,
    addr: u16,
    value: u8,
    other_bank: u8,
    other_addr: u16,
)
    requires
        bus.wf(),
        writable(bank, addr),
        readable(other_bank, other_addr),
        !same_cell(bank, addr, other_bank, other_addr),
    ensures
        bus.write(bank, addr, value).value(other_bank, other_addr) == bus.value(
            other_bank,
            other_addr,
        ),
        bus.write(bank, addr, value).flash_rom == bus.flash_rom,
{
}

/// A read changes nothing but the access count.
pub proof fn lemma_read_leaves_memory(bus: BusView, bank: u8, addr: u16)
    ensures
        bus.read(bank, addr).low_ram == bus.low_ram,
        bus.read(bank, addr).flash_rom == bus.flash_rom,
        bus.read(bank, addr).high_ram == bus.high_ram,
        bus.read(bank, addr).cycles == bus.cycles.wrapping_add(1),
{
}

} // verus!
