//! The processor core: the register file, its mathematical model, and the
//! primitives that every instruction is built from (memory access through
//! the bus, instruction fetch, the stack, comparison, mode changes).

pub mod addressing;
pub mod alu;
pub mod arithmetic;
pub mod decode;
pub mod flow;
pub mod invariants;
pub mod laws;
pub mod status;
pub mod transfer;

use crate::fault::Fault;
use crate::machine::bus::{readable, writable, Bus, BusView};
use crate::word::{high, high_byte, join, low, low_byte, make_word, widen};
use status::{Status, CARRY_FLAG, NEG_FLAG, SMALL_ACC_FLAG, SMALL_IDX_FLAG, ZERO_FLAG};
use vstd::prelude::*;

verus! {

/// The externally observable execution state of the core.
#[derive(Clone, Copy, Debug, PartialEq, Eq, Structural)]
pub enum RunStatus {
    Running,
    Waiting,
    Stopped,
}

/// Where the reset vector lies in bank 0.
pub const RESET_VEC8: u16 = 0xFFFC;

/// The processor together with the bus it owns.
pub struct W65C816 {
    pub a: u16,
    pub x: u16,
    pub y: u16,
    pub s: u16,
    pub dbr: u8,
    pub pbr: u8,
    pub d: u16,
    pub pc: u16,
    pub emulation: bool,
    pub p: Status,
    pub run_status: RunStatus,
    pub bus: Bus,
}

/// The machine as a mathematical value: the register file and the contents
/// of the bus. Every operation of the core is a function on this model.
///
/// An operation that can fail hands back the machine together with its
/// result. A fault leaves the machine as it was when the fault was met:
/// what the operation had done before stays done.
pub struct Machine {
    pub a: u16,
    pub x: u16,
    pub y: u16,
    pub s: u16,
    pub dbr: u8,
    pub pbr: u8,
    pub d: u16,
    pub pc: u16,
    pub emulation: bool,
    pub p: Status,
    pub run_status: RunStatus,
    pub bus: BusView,
}

impl View for W65C816 {
    type V = Machine;

    /// The register file as it is, over the contents of the bus.
    open spec fn view(&self) -> Machine {
        Machine {
            a: self.a,
            x: self.x,
            y: self.y,
            s: self.s,
            dbr: self.dbr,
            pbr: self.pbr,
            d: self.d,
            pc: self.pc,
            emulation: self.emulation,
            p: self.p,
            run_status: self.run_status,
            bus: self.bus@,
        }
    }
}

impl Machine {
    /// The memory arrays behind the bus have their full sizes.
    pub open spec fn wf(self) -> bool {
        self.bus.wf()
    }

    /// 8-bit accumulator mode.
    pub open spec fn small_acc(self) -> bool {
        self.p.has(SMALL_ACC_FLAG)
    }

    /// 8-bit index mode.
    pub open spec fn small_idx(self) -> bool {
        self.p.has(SMALL_IDX_FLAG)
    }

    /// The machine at power-on over a given bus: the program counter comes
    /// from the little-endian reset vector, read with two bus accesses.
    pub open spec fn reset(bus: BusView) -> Machine {
        Machine {
            a: 0,
            x: 0,
            y: 0,
            s: 0x100,
            dbr: 0,
            pbr: 0,
            d: 0,
            pc: join(bus.value(0, 0xFFFD), bus.value(0, 0xFFFC)),
            emulation: true,
            p: Status(0x34),
            run_status: RunStatus::Running,
            bus: bus.ticked().ticked(),
        }
    }

    /// Flags after comparing two words: Zero iff equal, Carry iff no borrow,
    /// Negative from bit 15 of the wrapped difference.
    pub open spec fn compare(self, a: u16, b: u16) -> Machine {
        Machine {
            p: self.p.with(ZERO_FLAG, a == b).with(CARRY_FLAG, a >= b).with(
                NEG_FLAG,
                a.wrapping_sub(b) & 0x8000 != 0,
            ),
            ..self
        }
    }

    /// Flags after comparing two bytes.
    pub open spec fn compare8(self, a: u8, b: u8) -> Machine {
        Machine {
            p: self.p.with(ZERO_FLAG, a == b).with(CARRY_FLAG, a >= b).with(
                NEG_FLAG,
                a.wrapping_sub(b) & 0x80 != 0,
            ),
            ..self
        }
    }

    /// The emulation flag is written. On the way from native into emulation
    /// mode both widths become 8-bit, X and Y lose their high bytes and the
    /// stack pointer moves to page 1.
    pub open spec fn set_emulation(self, value: bool) -> Machine {
        if !self.emulation && value {
            Machine {
                emulation: true,
                s: join(1, low(self.s)),
                p: self.p.with(SMALL_ACC_FLAG, true).with(SMALL_IDX_FLAG, true),
                x: low(self.x) as u16,
                y: low(self.y) as u16,
                ..self
            }
        } else {
            Machine { emulation: value, ..self }
        }
    }

    /// Control moves to `target`.
    pub open spec fn branch(self, target: (u8, u16)) -> Machine {
        Machine { pbr: target.0, pc: target.1, ..self }
    }

    /// The whole status byte is written. If that turns the index width
    /// from 16 to 8 bits, X and Y lose their high bytes at once.
    pub open spec fn set_p(self, new: u8) -> Machine {
        if !self.small_idx() && Status(new).has(SMALL_IDX_FLAG) {
            Machine { p: Status(new), x: low(self.x) as u16, y: low(self.y) as u16, ..self }
        } else {
            Machine { p: Status(new), ..self }
        }
    }

    /// A byte load through the bus; an unmapped location is a fault and
    /// leaves the machine as it was.
    pub open spec fn loadb(self, bank: u8, addr: u16) -> (Machine, Result<u8, Fault>) {
        if readable(bank, addr) {
            (Machine { bus: self.bus.read(bank, addr), ..self }, Ok(self.bus.value(bank, addr)))
        } else {
            (self, Err(Fault::BusRead { bank, addr }))
        }
    }

    /// A little-endian word load; one that would straddle the end of the
    /// bank is a fault.
    pub open spec fn loadw(self, bank: u8, addr: u16) -> (Machine, Result<u16, Fault>) {
        if addr == 0xFFFF {
            (self, Err(Fault::BankBoundaryLoad { bank }))
        } else {
            let (m1, lo) = self.loadb(bank, addr);
            match lo {
                Err(e) => (m1, Err(e)),
                Ok(lo) => {
                    let (m2, hi) = m1.loadb(bank, (addr + 1) as u16);
                    match hi {
                        Err(e) => (m2, Err(e)),
                        Ok(hi) => (m2, Ok(join(hi, lo))),
                    }
                },
            }
        }
    }

    /// A byte store through the bus; an unmapped or read-only location is
    /// a fault and leaves the machine as it was.
    pub open spec fn storeb(self, bank: u8, addr: u16, value: u8) -> (Machine, Result<(), Fault>) {
        if writable(bank, addr) {
            (Machine { bus: self.bus.write(bank, addr, value), ..self }, Ok(()))
        } else {
            (self, Err(Fault::BusWrite { bank, addr }))
        }
    }

    /// A little-endian word store. At the last address of a bank the high
    /// byte goes to address 0 of the next bank.
    pub open spec fn storew(self, bank: u8, addr: u16, value: u16) -> (Machine, Result<
        (),
        Fault,
    >) {
        let (m1, r) = self.storeb(bank, addr, low(value));
        match r {
            Err(e) => (m1, Err(e)),
            Ok(_) => if addr == 0xFFFF {
                m1.storeb((bank + 1) as u8, 0, high(value))
            } else {
                m1.storeb(bank, (addr + 1) as u16, high(value))
            },
        }
    }

    /// The byte at `PBR:PC`, with `PC` advanced by one within the bank.
    pub open spec fn fetchb(self) -> (Machine, Result<u8, Fault>) {
        let (m, r) = self.loadb(self.pbr, self.pc);
        match r {
            Err(e) => (m, Err(e)),
            Ok(v) => (Machine { pc: m.pc.wrapping_add(1), ..m }, Ok(v)),
        }
    }

    /// The little-endian word at `PBR:PC`, with `PC` advanced by two.
    pub open spec fn fetchw(self) -> (Machine, Result<u16, Fault>) {
        let (m1, lo) = self.fetchb();
        match lo {
            Err(e) => (m1, Err(e)),
            Ok(lo) => {
                let (m2, hi) = m1.fetchb();
                match hi {
                    Err(e) => (m2, Err(e)),
                    Ok(hi) => (m2, Ok(join(hi, lo))),
                }
            },
        }
    }

    /// In emulation mode the stack pointer must lie in page 1.
    pub open spec fn stack_in_page(self) -> bool {
        self.emulation ==> high(self.s) == 1
    }

    /// The stack pointer one lower; in emulation mode only its low byte wraps.
    pub open spec fn s_below(self) -> u16 {
        if self.emulation {
            join(high(self.s), low(self.s).wrapping_sub(1))
        } else {
            self.s.wrapping_sub(1)
        }
    }

    /// The stack pointer one higher; in emulation mode only its low byte wraps.
    pub open spec fn s_above(self) -> u16 {
        if self.emulation {
            join(high(self.s), low(self.s).wrapping_add(1))
        } else {
            self.s.wrapping_add(1)
        }
    }

    /// Push: the byte is stored at `0:S`, then `S` goes down by one.
    pub open spec fn pushb(self, value: u8) -> (Machine, Result<(), Fault>) {
        let (m, r) = self.storeb(0, self.s, value);
        match r {
            Err(e) => (m, Err(e)),
            Ok(_) => if m.stack_in_page() {
                (Machine { s: m.s_below(), ..m }, Ok(()))
            } else {
                (m, Err(Fault::StackPage))
            },
        }
    }

    /// A word push: high byte first, so that the low byte lies lower.
    pub open spec fn pushw(self, value: u16) -> (Machine, Result<(), Fault>) {
        let (m, r) = self.pushb(high(value));
        match r {
            Err(e) => (m, Err(e)),
            Ok(_) => m.pushb(low(value)),
        }
    }

    /// Pop: `S` goes up by one, then the byte at `0:S` is loaded.
    pub open spec fn popb(self) -> (Machine, Result<u8, Fault>) {
        if self.stack_in_page() {
            Machine { s: self.s_above(), ..self }.loadb(0, self.s_above())
        } else {
            (self, Err(Fault::StackPage))
        }
    }

    /// A word pop: low byte first.
    pub open spec fn popw(self) -> (Machine, Result<u16, Fault>) {
        let (m1, lo) = self.popb();
        match lo {
            Err(e) => (m1, Err(e)),
            Ok(lo) => {
                let (m2, hi) = m1.popb();
                match hi {
                    Err(e) => (m2, Err(e)),
                    Ok(hi) => (m2, Ok(join(hi, lo))),
                }
            },
        }
    }
}

impl W65C816 {
    /// A processor at power-on over `bus`.
    pub fn new(bus: Bus) -> (cpu: W65C816)
        requires
            bus@.wf(),
        ensures
            cpu@.wf(),
            cpu@ == Machine::reset(bus@),
    {
        let mut bus = bus;
        let pcl: u8 = bus.read(0, RESET_VEC8);
        let pch: u8 = bus.read(0, RESET_VEC8 + 1);
        let pc: u16 = make_word(pch, pcl);
        W65C816 {
            a: 0,
            x: 0,
            y: 0,
            s: 0x100,
            dbr: 0,
            pbr: 0,
            d: 0,
            pc,
            emulation: true,
            p: Status::new(),
            run_status: RunStatus::Running,
            bus,
        }
    }

    /// Flags after comparing two words: Zero iff equal, Carry iff no borrow,
    /// Negative from bit 15 of the wrapped difference.
    pub fn compare(&mut self, a: u16, b: u16)
        ensures
            final(self)@ == old(self)@.compare(a, b),
    {
        self.p.set_zero(a == b);
        self.p.set_carry(a >= b);
        self.p.set_negative(a.wrapping_sub(b) & 0x8000 != 0);
    }

    /// Flags after comparing two bytes.
    pub fn compare8(&mut self, a: u8, b: u8)
        ensures
            final(self)@ == old(self)@.compare8(a, b),
    {
        self.p.set_zero(a == b);
        self.p.set_carry(a >= b);
        self.p.set_negative(a.wrapping_sub(b) & 0x80 != 0);
    }

    /// The emulation flag is written. On the way from native into emulation
    /// mode both widths become 8-bit, X and Y lose their high bytes and the
    /// stack pointer moves to page 1.
    pub fn set_emulation(&mut self, value: bool)
        ensures
            final(self)@ == old(self)@.set_emulation(value),
            final(self).emulation == value,
            !old(self).emulation && value ==> final(self).x == low(old(self).x) && final(self).y
                == low(old(self).y) && final(self).s == join(1, low(old(self).s)),
    {
        if !self.emulation && value {
            self.s = make_word(1, low_byte(self.s));
            self.p.set_small_acc(true);
            self.p.set_small_idx(true);
            self.x = widen(low_byte(self.x));
            self.y = widen(low_byte(self.y));
        }
        self.emulation = value;
    }

    /// Control moves to `target`.
    pub fn branch(&mut self, target: (u8, u16))
        ensures
            final(self)@ == old(self)@.branch(target),
    {
        self.pbr = target.0;
        self.pc = target.1;
    }

    /// The whole status byte is written. If that turns the index width
    /// from 16 to 8 bits, X and Y lose their high bytes at once.
    pub fn set_p(&mut self, new: u8)
        ensures
            final(self)@ == old(self)@.set_p(new),
            final(self).p.0 == new,
            final(self).a == old(self).a,
            !old(self)@.small_idx() && final(self)@.small_idx() ==> final(self).x <= 0xFF
                && final(self).y <= 0xFF,
    {
        let small_idx: bool = self.p.small_idx();
        self.p = Status(new);
        if !small_idx && self.p.small_idx() {
            self.x = widen(low_byte(self.x));
            self.y = widen(low_byte(self.y));
        }
    }

    /// A byte load through the bus; an unmapped location is a fault and
    /// leaves the machine as it was.
    pub fn loadb(&mut self, bank: u8, addr: u16) -> (r: Result<u8, Fault>)
        requires
            old(self)@.wf(),
        ensures
            final(self)@.wf(),
            (final(self)@, r) == old(self)@.loadb(bank, addr),
    {
        if Bus::can_read(bank, addr) {
            Ok(self.bus.read(bank, addr))
        } else {
            Err(Fault::BusRead { bank, addr })
        }
    }

    /// A little-endian word load; one that would straddle the end of the
    /// bank is a fault.
    pub fn loadw(&mut self, bank: u8, addr: u16) -> (r: Result<u16, Fault>)
        requires
            old(self)@.wf(),
        ensures
            final(self)@.wf(),
            (final(self)@, r) == old(self)@.loadw(bank, addr),
    {
        if addr == 0xFFFF {
            return Err(Fault::BankBoundaryLoad { bank });
        }
        let lo: u8 = self.loadb(bank, addr)?;
        let hi: u8 = self.loadb(bank, addr + 1)?;
        Ok(make_word(hi, lo))
    }

    /// A byte store through the bus; an unmapped or read-only location is
    /// a fault and leaves the machine as it was.
    pub fn storeb(&mut self, bank: u8, addr: u16, value: u8) -> (r: Result<(), Fault>)
        requires
            old(self)@.wf(),
        ensures
            final(self)@.wf(),
            (final(self)@, r) == old(self)@.storeb(bank, addr, value),
    {
        if Bus::can_write(bank, addr) {
            self.bus.write(bank, addr, value);
            Ok(())
        } else {
            Err(Fault::BusWrite { bank, addr })
        }
    }

    /// A little-endian word store. At the last address of a bank the high
    /// byte goes to address 0 of the next bank.
    pub fn storew(&mut self, bank: u8, addr: u16, value: u16) -> (r: Result<(), Fault>)
        requires
            old(self)@.wf(),
        ensures
            final(self)@.wf(),
            (final(self)@, r) == old(self)@.storew(bank, addr, value),
    {
        self.storeb(bank, addr, low_byte(value))?;
        if addr == 0xFFFF {
            self.storeb(bank + 1, 0, high_byte(value))
        } else {
            self.storeb(bank, addr + 1, high_byte(value))
        }
    }

    /// The byte at `PBR:PC`, with `PC` advanced by one within the bank.
    pub fn fetchb(&mut self) -> (r: Result<u8, Fault>)
        requires
            old(self)@.wf(),
        ensures
            final(self)@.wf(),
            (final(self)@, r) == old(self)@.fetchb(),
    {
        let val: u8 = self.loadb(self.pbr, self.pc)?;
        self.pc = self.pc.wrapping_add(1);
        Ok(val)
    }

    /// The little-endian word at `PBR:PC`, with `PC` advanced by two.
    pub fn fetchw(&mut self) -> (r: Result<u16, Fault>)
        requires
            old(self)@.wf(),
        ensures
            final(self)@.wf(),
            (final(self)@, r) == old(self)@.fetchw(),
    {
        let low: u8 = self.fetchb()?;
        let high: u8 = self.fetchb()?;
        Ok(make_word(high, low))
    }

    /// Push: the byte is stored at `0:S`, then `S` goes down by one.
    pub fn pushb(&mut self, value: u8) -> (r: Result<(), Fault>)
        requires
            old(self)@.wf(),
        ensures
            final(self)@.wf(),
            (final(self)@, r) == old(self)@.pushb(value),
    {
        let s: u16 = self.s;
        self.storeb(0, s, value)?;
        if self.emulation {
            if high_byte(self.s) != 1 {
                return Err(Fault::StackPage);
            }
            self.s = make_word(1, low_byte(self.s).wrapping_sub(1));
        } else {
            self.s = self.s.wrapping_sub(1);
        }
        Ok(())
    }

    /// A word push: high byte first, so that the low byte lies lower.
    pub fn pushw(&mut self, value: u16) -> (r: Result<(), Fault>)
        requires
            old(self)@.wf(),
        ensures
            final(self)@.wf(),
            (final(self)@, r) == old(self)@.pushw(value),
    {
        let hi: u8 = high_byte(value);
        let lo: u8 = low_byte(value);
        self.pushb(hi)?;
        self.pushb(lo)
    }

    /// Pop: `S` goes up by one, then the byte at `0:S` is loaded.
    pub fn popb(&mut self) -> (r: Result<u8, Fault>)
        requires
            old(self)@.wf(),
        ensures
            final(self)@.wf(),
            (final(self)@, r) == old(self)@.popb(),
    {
        if self.emulation {
            if high_byte(self.s) != 1 {
                return Err(Fault::StackPage);
            }
            self.s = make_word(1, low_byte(self.s).wrapping_add(1));
        } else {
            self.s = self.s.wrapping_add(1);
        }
        let s: u16 = self.s;
        self.loadb(0, s)
    }

    /// A word pop: low byte first.
    pub fn popw(&mut self) -> (r: Result<u16, Fault>)
        requires
            old(self)@.wf(),
        ensures
            final(self)@.wf(),
            (final(self)@, r) == old(self)@.popw(),
    {
        let lo: u8 = self.popb()?;
        let hi: u8 = self.popb()?;
        Ok(make_word(hi, lo))
    }
}

} // verus!
