//! Operand shapes and their resolution to an immediate operand or to an
//! effective `(bank, address)` pair.

use super::{Machine, W65C816};
use crate::fault::Fault;
use crate::word::{displace, displaced, join, low, low_byte, make_word, widen};
use vstd::prelude::*;

verus! {

#[derive(Clone, Copy, Debug, PartialEq, Eq, Structural)]
pub enum AddressingMode {
    Immediate(u16),
    Immediate8(u8),
    Rel(i8),
    RelLong(i16),
    Direct(u8),
    DirectIndexedX(u8),
    DirectIndexedY(u8),
    DirectIndexedIndirect(u8),
    DirectIndirect(u8),
    DirectIndirectIndexed(u8),
    DirectIndirectLong(u8),
    DirectIndirectLongIdx(u8),
    Absolute(u16),
    AbsIndexedX(u16),
    AbsIndexedY(u16),
    AbsIndexedIndirect(u16),
    AbsLongIndexedX(u8, u16),
    AbsoluteLong(u8, u16),
    AbsoluteIndirect(u16),
    AbsoluteIndirectLong(u16),
    StackRel(u8),
}

/// A 24-bit base plus a 16-bit index: the sum split into bank and address,
/// or an address-range fault where it needs more than 24 bits.
pub open spec fn long_indexed(bank: u8, addr: u16, index: u16) -> Result<(u8, u16), Fault> {
    let sum = bank * 0x10000 + addr + index;
    if sum >= 0x1000000 {
        Err(Fault::AddressRange)
    } else {
        Ok(((sum / 0x10000) as u8, (sum % 0x10000) as u16))
    }
}

impl Machine {
    /// X as an index: its low byte alone in 8-bit index mode.
    pub open spec fn index_x(self) -> u16 {
        if self.small_idx() {
            low(self.x) as u16
        } else {
            self.x
        }
    }

    /// Y as an index: its low byte alone in 8-bit index mode.
    pub open spec fn index_y(self) -> u16 {
        if self.small_idx() {
            low(self.y) as u16
        } else {
            self.y
        }
    }

    /// The three-byte little-endian pointer (low, high, bank) stored in
    /// bank 0 from `ptr` on; the three addresses wrap within the bank.
    pub open spec fn pointer(self, ptr: u16) -> (Machine, Result<(u8, u16), Fault>) {
        let (m1, lo) = self.loadb(0, ptr);
        match lo {
            Err(e) => (m1, Err(e)),
            Ok(lo) => {
                let (m2, hi) = m1.loadb(0, ptr.wrapping_add(1));
                match hi {
                    Err(e) => (m2, Err(e)),
                    Ok(hi) => {
                        let (m3, bank) = m2.loadb(0, ptr.wrapping_add(2));
                        match bank {
                            Err(e) => (m3, Err(e)),
                            Ok(bank) => (m3, Ok((bank, join(hi, lo)))),
                        }
                    },
                }
            },
        }
    }

    /// The effective location of an operand. Indirect shapes read their
    /// pointer through the bus; shapes that are not wired up are a fault.
    pub open spec fn address(self, am: AddressingMode) -> (Machine, Result<(u8, u16), Fault>) {
        match am {
            AddressingMode::Direct(offset) => (self, Ok((0u8, self.d.wrapping_add(offset as u16)))),
            AddressingMode::Absolute(addr) => (self, Ok((self.dbr, addr))),
            AddressingMode::AbsoluteLong(bank, addr) => (self, Ok((bank, addr))),
            AddressingMode::AbsIndexedX(addr) => (
                self,
                Ok((self.dbr, addr.wrapping_add(self.index_x()))),
            ),
            AddressingMode::AbsIndexedY(addr) => (
                self,
                Ok((self.dbr, addr.wrapping_add(self.index_y()))),
            ),
            AddressingMode::AbsLongIndexedX(bank, addr) => (self, long_indexed(bank, addr, self.x)),
            AddressingMode::Rel(rel) => (self, Ok((self.pbr, displaced(self.pc, rel as int)))),
            AddressingMode::RelLong(rel) => (self, Ok((self.pbr, displaced(self.pc, rel as int)))),
            AddressingMode::DirectIndirectLong(offset) => self.pointer(
                self.d.wrapping_add(offset as u16),
            ),
            AddressingMode::DirectIndirectLongIdx(offset) => {
                let (m, r) = self.pointer(self.d.wrapping_add(offset as u16));
                match r {
                    Err(e) => (m, Err(e)),
                    Ok(base) => (m, long_indexed(base.0, base.1, m.y)),
                }
            },
            _ => (self, Err(Fault::UnimplementedAddressingMode { bank: self.pbr, pc: self.pc })),
        }
    }

    /// A byte operand: the immediate itself, or the byte at the effective
    /// location. A word immediate is a width mismatch.
    pub open spec fn read8(self, am: AddressingMode) -> (Machine, Result<u8, Fault>) {
        match am {
            AddressingMode::Immediate(_) => (self, Err(Fault::WidthMismatch)),
            AddressingMode::Immediate8(val) => (self, Ok(val)),
            _ => {
                let (m, r) = self.address(am);
                match r {
                    Err(e) => (m, Err(e)),
                    Ok(at) => m.loadb(at.0, at.1),
                }
            },
        }
    }

    /// A word operand: the immediate itself, or the word at the effective
    /// location. A byte immediate is a width mismatch.
    pub open spec fn read16(self, am: AddressingMode) -> (Machine, Result<u16, Fault>) {
        match am {
            AddressingMode::Immediate(val) => (self, Ok(val)),
            AddressingMode::Immediate8(_) => (self, Err(Fault::WidthMismatch)),
            _ => {
                let (m, r) = self.address(am);
                match r {
                    Err(e) => (m, Err(e)),
                    Ok(at) => m.loadw(at.0, at.1),
                }
            },
        }
    }

    /// A byte stored at the effective location.
    pub open spec fn write8(self, am: AddressingMode, value: u8) -> (Machine, Result<(), Fault>) {
        let (m, r) = self.address(am);
        match r {
            Err(e) => (m, Err(e)),
            Ok(at) => m.storeb(at.0, at.1, value),
        }
    }

    /// A word stored at the effective location.
    pub open spec fn write16(self, am: AddressingMode, value: u16) -> (Machine, Result<
        (),
        Fault,
    >) {
        let (m, r) = self.address(am);
        match r {
            Err(e) => (m, Err(e)),
            Ok(at) => m.storew(at.0, at.1, value),
        }
    }
}

/// Adds a 16-bit index to a 24-bit base.
pub fn add_long_index(bank: u8, addr: u16, index: u16) -> (r: Result<(u8, u16), Fault>)
    ensures
        r == long_indexed(bank, addr, index),
{
    let sum: u32 = bank as u32 * 0x10000 + addr as u32 + index as u32;
    if sum >= 0x1000000 {
        Err(Fault::AddressRange)
    } else {
        Ok(((sum / 0x10000) as u8, (sum % 0x10000) as u16))
    }
}

/// Reads the three-byte pointer stored in bank 0 from `ptr` on.
pub fn load_pointer(cpu: &mut W65C816, ptr: u16) -> (r: Result<(u8, u16), Fault>)
    requires
        old(cpu)@.wf(),
    ensures
        final(cpu)@.wf(),
        (final(cpu)@, r) == old(cpu)@.pointer(ptr),
{
    let lo: u8 = cpu.loadb(0, ptr)?;
    let hi: u8 = cpu.loadb(0, ptr.wrapping_add(1))?;
    let bank: u8 = cpu.loadb(0, ptr.wrapping_add(2))?;
    Ok((bank, make_word(hi, lo)))
}

impl AddressingMode {
    /// A byte operand: the immediate itself, or the byte at the effective
    /// location. A word immediate is a width mismatch.
    pub fn loadb(self, cpu: &mut W65C816) -> (r: Result<u8, Fault>)
        requires
            old(cpu)@.wf(),
        ensures
            final(cpu)@.wf(),
            (final(cpu)@, r) == old(cpu)@.read8(self),
    {
        match self {
            AddressingMode::Immediate(_) => Err(Fault::WidthMismatch),
            AddressingMode::Immediate8(val) => Ok(val),
            _ => {
                let (bank, addr) = self.address(cpu)?;
                cpu.loadb(bank, addr)
            },
        }
    }

    /// A word operand: the immediate itself, or the word at the effective
    /// location. A byte immediate is a width mismatch.
    pub fn loadw(self, cpu: &mut W65C816) -> (r: Result<u16, Fault>)
        requires
            old(cpu)@.wf(),
        ensures
            final(cpu)@.wf(),
            (final(cpu)@, r) == old(cpu)@.read16(self),
    {
        match self {
            AddressingMode::Immediate(val) => Ok(val),
            AddressingMode::Immediate8(_) => Err(Fault::WidthMismatch),
            _ => {
                let (bank, addr) = self.address(cpu)?;
                cpu.loadw(bank, addr)
            },
        }
    }

    /// A byte stored at the effective location.
    pub fn storeb(self, cpu: &mut W65C816, value: u8) -> (r: Result<(), Fault>)
        requires
            old(cpu)@.wf(),
        ensures
            final(cpu)@.wf(),
            (final(cpu)@, r) == old(cpu)@.write8(self, value),
    {
        let (bank, addr) = self.address(cpu)?;
        cpu.storeb(bank, addr, value)
    }

    /// A word stored at the effective location.
    pub fn storew(self, cpu: &mut W65C816, value: u16) -> (r: Result<(), Fault>)
        requires
            old(cpu)@.wf(),
        ensures
            final(cpu)@.wf(),
            (final(cpu)@, r) == old(cpu)@.write16(self, value),
    {
        let (bank, addr) = self.address(cpu)?;
        cpu.storew(bank, addr, value)
    }

    /// The effective location of an operand. Indirect shapes read their
    /// pointer through the bus; shapes that are not wired up are a fault.
    pub fn address(&self, cpu: &mut W65C816) -> (r: Result<(u8, u16), Fault>)
        requires
            old(cpu)@.wf(),
        ensures
            final(cpu)@.wf(),
            (final(cpu)@, r) == old(cpu)@.address(*self),
    {
        match *self {
            AddressingMode::Direct(offset) => Ok((0, cpu.d.wrapping_add(widen(offset)))),
            AddressingMode::Absolute(addr) => Ok((cpu.dbr, addr)),
            AddressingMode::AbsoluteLong(bank, addr) => Ok((bank, addr)),
            AddressingMode::AbsIndexedX(offset) => {
                let index: u16 = if cpu.p.small_idx() {
                    widen(low_byte(cpu.x))
                } else {
                    cpu.x
                };
                Ok((cpu.dbr, offset.wrapping_add(index)))
            },
            AddressingMode::AbsIndexedY(offset) => {
                let index: u16 = if cpu.p.small_idx() {
                    widen(low_byte(cpu.y))
                } else {
                    cpu.y
                };
                Ok((cpu.dbr, offset.wrapping_add(index)))
            },
            AddressingMode::AbsLongIndexedX(bank, addr) => add_long_index(bank, addr, cpu.x),
            AddressingMode::Rel(rel) => Ok((cpu.pbr, displace(cpu.pc, rel as i16))),
            AddressingMode::RelLong(rel) => Ok((cpu.pbr, displace(cpu.pc, rel))),
            AddressingMode::DirectIndirectLong(offset) => {
                let addr_ptr: u16 = cpu.d.wrapping_add(widen(offset));
                load_pointer(cpu, addr_ptr)
            },
            AddressingMode::DirectIndirectLongIdx(offset) => {
                let addr_ptr: u16 = cpu.d.wrapping_add(widen(offset));
                let (bank, addr) = load_pointer(cpu, addr_ptr)?;
                add_long_index(bank, addr, cpu.y)
            },
            _ => Err(Fault::UnimplementedAddressingMode { bank: cpu.pbr, pc: cpu.pc }),
        }
    }
}

} // verus!
