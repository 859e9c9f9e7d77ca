//! Decoding and dispatch: the opcode table, the operand decoders that
//! fetch what follows an opcode, and the step that ties them together.

use super::addressing::AddressingMode;
use super::invariants::{keeps_index, lemma_step_invariants};
use super::{Machine, RunStatus, W65C816};
use crate::fault::Fault;
use crate::word::{signed16, signed8, to_signed16, to_signed8};
use vstd::prelude::*;

verus! {

/// The instructions that take no operand.
#[derive(Clone, Copy, Debug, PartialEq, Eq, Structural)]
pub enum Implied {
    AslA,
    LsrA,
    Rts,
    Rtl,
    Tax,
    Txa,
    Txs,
    Tyx,
    Xba,
    Pha,
    Phx,
    Phy,
    Pla,
    Plx,
    Ply,
    Inx,
    Dex,
    Iny,
    Dey,
    Clc,
    Cld,
    Cli,
    Clv,
    Sec,
    Sed,
    Sei,
    Xce,
    Stp,
    Wai,
}

/// The instructions that work on an operand.
#[derive(Clone, Copy, Debug, PartialEq, Eq, Structural)]
pub enum Operation {
    Sbc,
    Adc,
    And,
    Ora,
    Bra,
    Beq,
    Bmi,
    Bne,
    Jmp,
    Jml,
    Jsr,
    Jsl,
    Cmp,
    Cpx,
    Cpy,
    Lda,
    Ldx,
    Ldy,
    Sta,
    Stx,
    Sty,
    Inc,
    Rep,
    Sep,
}

/// How the bytes after an opcode are read into an operand shape.
#[derive(Clone, Copy, Debug, PartialEq, Eq, Structural)]
pub enum Decoder {
    Immediate8,
    ImmediateAcc,
    ImmediateIndex,
    Direct,
    DirectIndirectLong,
    DirectIndirectLongIdx,
    Absolute,
    AbsoluteIndexedX,
    AbsoluteIndexedY,
    AbsoluteLong,
    AbsoluteLongIndexedX,
    Rel,
    RelativeLong,
}

/// One entry of the opcode table.
#[derive(Clone, Copy, Debug, PartialEq, Eq, Structural)]
pub enum Entry {
    Implied(Implied),
    Operand(Operation, Decoder),
}

/// The opcode table: what an opcode byte stands for, if anything.
pub open spec fn decode(opcode: u8) -> Option<Entry> {
    match opcode {
        0xE9 => Some(Entry::Operand(Operation::Sbc, Decoder::ImmediateAcc)),
        0x69 => Some(Entry::Operand(Operation::Adc, Decoder::ImmediateAcc)),
        0x0A => Some(Entry::Implied(Implied::AslA)),
        0x4A => Some(Entry::Implied(Implied::LsrA)),
        0x29 => Some(Entry::Operand(Operation::And, Decoder::ImmediateAcc)),
        0x05 => Some(Entry::Operand(Operation::Ora, Decoder::Direct)),
        0x09 => Some(Entry::Operand(Operation::Ora, Decoder::ImmediateAcc)),
        0x80 => Some(Entry::Operand(Operation::Bra, Decoder::Rel)),
        0x82 => Some(Entry::Operand(Operation::Bra, Decoder::RelativeLong)),
        0xF0 => Some(Entry::Operand(Operation::Beq, Decoder::Rel)),
        0x30 => Some(Entry::Operand(Operation::Bmi, Decoder::Rel)),
        0xD0 => Some(Entry::Operand(Operation::Bne, Decoder::Rel)),
        0x4C => Some(Entry::Operand(Operation::Jmp, Decoder::Absolute)),
        0x5C => Some(Entry::Operand(Operation::Jml, Decoder::AbsoluteLong)),
        0x20 => Some(Entry::Operand(Operation::Jsr, Decoder::Absolute)),
        0x22 => Some(Entry::Operand(Operation::Jsl, Decoder::AbsoluteLong)),
        0x60 => Some(Entry::Implied(Implied::Rts)),
        0x6B => Some(Entry::Implied(Implied::Rtl)),
        0xCD => Some(Entry::Operand(Operation::Cmp, Decoder::Absolute)),
        0xDD => Some(Entry::Operand(Operation::Cmp, Decoder::AbsoluteIndexedX)),
        0xC9 => Some(Entry::Operand(Operation::Cmp, Decoder::ImmediateAcc)),
        0xEC => Some(Entry::Operand(Operation::Cpx, Decoder::Absolute)),
        0xE0 => Some(Entry::Operand(Operation::Cpx, Decoder::ImmediateIndex)),
        0xC0 => Some(Entry::Operand(Operation::Cpy, Decoder::ImmediateIndex)),
        0xA9 => Some(Entry::Operand(Operation::Lda, Decoder::ImmediateAcc)),
        0xA5 => Some(Entry::Operand(Operation::Lda, Decoder::Direct)),
        0xA7 => Some(Entry::Operand(Operation::Lda, Decoder::DirectIndirectLong)),
        0xB7 => Some(Entry::Operand(Operation::Lda, Decoder::DirectIndirectLongIdx)),
        0xAD => Some(Entry::Operand(Operation::Lda, Decoder::Absolute)),
        0xBD => Some(Entry::Operand(Operation::Lda, Decoder::AbsoluteIndexedX)),
        0xBF => Some(Entry::Operand(Operation::Lda, Decoder::AbsoluteLongIndexedX)),
        0xA2 => Some(Entry::Operand(Operation::Ldx, Decoder::ImmediateIndex)),
        0xA6 => Some(Entry::Operand(Operation::Ldx, Decoder::Direct)),
        0xAE => Some(Entry::Operand(Operation::Ldx, Decoder::Absolute)),
        0xA0 => Some(Entry::Operand(Operation::Ldy, Decoder::ImmediateIndex)),
        0xA4 => Some(Entry::Operand(Operation::Ldy, Decoder::Direct)),
        0x85 => Some(Entry::Operand(Operation::Sta, Decoder::Direct)),
        0x8D => Some(Entry::Operand(Operation::Sta, Decoder::Absolute)),
        0x9D => Some(Entry::Operand(Operation::Sta, Decoder::AbsoluteIndexedX)),
        0x99 => Some(Entry::Operand(Operation::Sta, Decoder::AbsoluteIndexedY)),
        0x97 => Some(Entry::Operand(Operation::Sta, Decoder::DirectIndirectLongIdx)),
        0x86 => Some(Entry::Operand(Operation::Stx, Decoder::Direct)),
        0x8E => Some(Entry::Operand(Operation::Stx, Decoder::Absolute)),
        0x84 => Some(Entry::Operand(Operation::Sty, Decoder::Direct)),
        0x8C => Some(Entry::Operand(Operation::Sty, Decoder::Absolute)),
        0xAA => Some(Entry::Implied(Implied::Tax)),
        0x8A => Some(Entry::Implied(Implied::Txa)),
        0x9A => Some(Entry::Implied(Implied::Txs)),
        0xBB => Some(Entry::Implied(Implied::Tyx)),
        0xEB => Some(Entry::Implied(Implied::Xba)),
        0x48 => Some(Entry::Implied(Implied::Pha)),
        0xDA => Some(Entry::Implied(Implied::Phx)),
        0x5A => Some(Entry::Implied(Implied::Phy)),
        0x68 => Some(Entry::Implied(Implied::Pla)),
        0xFA => Some(Entry::Implied(Implied::Plx)),
        0x7A => Some(Entry::Implied(Implied::Ply)),
        0xE8 => Some(Entry::Implied(Implied::Inx)),
        0xCA => Some(Entry::Implied(Implied::Dex)),
        0xC8 => Some(Entry::Implied(Implied::Iny)),
        0x88 => Some(Entry::Implied(Implied::Dey)),
        0xEE => Some(Entry::Operand(Operation::Inc, Decoder::Absolute)),
        0x18 => Some(Entry::Implied(Implied::Clc)),
        0xD8 => Some(Entry::Implied(Implied::Cld)),
        0x58 => Some(Entry::Implied(Implied::Cli)),
        0xB8 => Some(Entry::Implied(Implied::Clv)),
        0x38 => Some(Entry::Implied(Implied::Sec)),
        0xF8 => Some(Entry::Implied(Implied::Sed)),
        0x78 => Some(Entry::Implied(Implied::Sei)),
        0xFB => Some(Entry::Implied(Implied::Xce)),
        0xC2 => Some(Entry::Operand(Operation::Rep, Decoder::Immediate8)),
        0xE2 => Some(Entry::Operand(Operation::Sep, Decoder::Immediate8)),
        0xDB => Some(Entry::Implied(Implied::Stp)),
        0xCB => Some(Entry::Implied(Implied::Wai)),
        _ => None,
    }
}

/// Looks an opcode up in the table.
pub fn lookup(opcode: u8) -> (entry: Option<Entry>)
    ensures
        entry == decode(opcode),
{
    match opcode {
        0xE9 => Some(Entry::Operand(Operation::Sbc, Decoder::ImmediateAcc)),
        0x69 => Some(Entry::Operand(Operation::Adc, Decoder::ImmediateAcc)),
        0x0A => Some(Entry::Implied(Implied::AslA)),
        0x4A => Some(Entry::Implied(Implied::LsrA)),
        0x29 => Some(Entry::Operand(Operation::And, Decoder::ImmediateAcc)),
        0x05 => Some(Entry::Operand(Operation::Ora, Decoder::Direct)),
        0x09 => Some(Entry::Operand(Operation::Ora, Decoder::ImmediateAcc)),
        0x80 => Some(Entry::Operand(Operation::Bra, Decoder::Rel)),
        0x82 => Some(Entry::Operand(Operation::Bra, Decoder::RelativeLong)),
        0xF0 => Some(Entry::Operand(Operation::Beq, Decoder::Rel)),
        0x30 => Some(Entry::Operand(Operation::Bmi, Decoder::Rel)),
        0xD0 => Some(Entry::Operand(Operation::Bne, Decoder::Rel)),
        0x4C => Some(Entry::Operand(Operation::Jmp, Decoder::Absolute)),
        0x5C => Some(Entry::Operand(Operation::Jml, Decoder::AbsoluteLong)),
        0x20 => Some(Entry::Operand(Operation::Jsr, Decoder::Absolute)),
        0x22 => Some(Entry::Operand(Operation::Jsl, Decoder::AbsoluteLong)),
        0x60 => Some(Entry::Implied(Implied::Rts)),
        0x6B => Some(Entry::Implied(Implied::Rtl)),
        0xCD => Some(Entry::Operand(Operation::Cmp, Decoder::Absolute)),
        0xDD => Some(Entry::Operand(Operation::Cmp, Decoder::AbsoluteIndexedX)),
        0xC9 => Some(Entry::Operand(Operation::Cmp, Decoder::ImmediateAcc)),
        0xEC => Some(Entry::Operand(Operation::Cpx, Decoder::Absolute)),
        0xE0 => Some(Entry::Operand(Operation::Cpx, Decoder::ImmediateIndex)),
        0xC0 => Some(Entry::Operand(Operation::Cpy, Decoder::ImmediateIndex)),
        0xA9 => Some(Entry::Operand(Operation::Lda, Decoder::ImmediateAcc)),
        0xA5 => Some(Entry::Operand(Operation::Lda, Decoder::Direct)),
        0xA7 => Some(Entry::Operand(Operation::Lda, Decoder::DirectIndirectLong)),
        0xB7 => Some(Entry::Operand(Operation::Lda, Decoder::DirectIndirectLongIdx)),
        0xAD => Some(Entry::Operand(Operation::Lda, Decoder::Absolute)),
        0xBD => Some(Entry::Operand(Operation::Lda, Decoder::AbsoluteIndexedX)),
        0xBF => Some(Entry::Operand(Operation::Lda, Decoder::AbsoluteLongIndexedX)),
        0xA2 => Some(Entry::Operand(Operation::Ldx, Decoder::ImmediateIndex)),
        0xA6 => Some(Entry::Operand(Operation::Ldx, Decoder::Direct)),
        0xAE => Some(Entry::Operand(Operation::Ldx, Decoder::Absolute)),
        0xA0 => Some(Entry::Operand(Operation::Ldy, Decoder::ImmediateIndex)),
        0xA4 => Some(Entry::Operand(Operation::Ldy, Decoder::Direct)),
        0x85 => Some(Entry::Operand(Operation::Sta, Decoder::Direct)),
        0x8D => Some(Entry::Operand(Operation::Sta, Decoder::Absolute)),
        0x9D => Some(Entry::Operand(Operation::Sta, Decoder::AbsoluteIndexedX)),
        0x99 => Some(Entry::Operand(Operation::Sta, Decoder::AbsoluteIndexedY)),
        0x97 => Some(Entry::Operand(Operation::Sta, Decoder::DirectIndirectLongIdx)),
        0x86 => Some(Entry::Operand(Operation::Stx, Decoder::Direct)),
        0x8E => Some(Entry::Operand(Operation::Stx, Decoder::Absolute)),
        0x84 => Some(Entry::Operand(Operation::Sty, Decoder::Direct)),
        0x8C => Some(Entry::Operand(Operation::Sty, Decoder::Absolute)),
        0xAA => Some(Entry::Implied(Implied::Tax)),
        0x8A => Some(Entry::Implied(Implied::Txa)),
        0x9A => Some(Entry::Implied(Implied::Txs)),
        0xBB => Some(Entry::Implied(Implied::Tyx)),
        0xEB => Some(Entry::Implied(Implied::Xba)),
        0x48 => Some(Entry::Implied(Implied::Pha)),
        0xDA => Some(Entry::Implied(Implied::Phx)),
        0x5A => Some(Entry::Implied(Implied::Phy)),
        0x68 => Some(Entry::Implied(Implied::Pla)),
        0xFA => Some(Entry::Implied(Implied::Plx)),
        0x7A => Some(Entry::Implied(Implied::Ply)),
        0xE8 => Some(Entry::Implied(Implied::Inx)),
        0xCA => Some(Entry::Implied(Implied::Dex)),
        0xC8 => Some(Entry::Implied(Implied::Iny)),
        0x88 => Some(Entry::Implied(Implied::Dey)),
        0xEE => Some(Entry::Operand(Operation::Inc, Decoder::Absolute)),
        0x18 => Some(Entry::Implied(Implied::Clc)),
        0xD8 => Some(Entry::Implied(Implied::Cld)),
        0x58 => Some(Entry::Implied(Implied::Cli)),
        0xB8 => Some(Entry::Implied(Implied::Clv)),
        0x38 => Some(Entry::Implied(Implied::Sec)),
        0xF8 => Some(Entry::Implied(Implied::Sed)),
        0x78 => Some(Entry::Implied(Implied::Sei)),
        0xFB => Some(Entry::Implied(Implied::Xce)),
        0xC2 => Some(Entry::Operand(Operation::Rep, Decoder::Immediate8)),
        0xE2 => Some(Entry::Operand(Operation::Sep, Decoder::Immediate8)),
        0xDB => Some(Entry::Implied(Implied::Stp)),
        0xCB => Some(Entry::Implied(Implied::Wai)),
        _ => None,
    }
}

impl Machine {
    /// A direct-page offset.
    pub open spec fn direct(self) -> (Machine, Result<AddressingMode, Fault>) {
        let (m, r) = self.fetchb();
        match r {
            Err(e) => (m, Err(e)),
            Ok(v) => (m, Ok(AddressingMode::Direct(v))),
        }
    }

    /// An address in the data bank.
    pub open spec fn absolute(self) -> (Machine, Result<AddressingMode, Fault>) {
        let (m, r) = self.fetchw();
        match r {
            Err(e) => (m, Err(e)),
            Ok(v) => (m, Ok(AddressingMode::Absolute(v))),
        }
    }

    /// An address in the data bank to be indexed by X.
    pub open spec fn absolute_indexed_x(self) -> (Machine, Result<AddressingMode, Fault>) {
        let (m, r) = self.fetchw();
        match r {
            Err(e) => (m, Err(e)),
            Ok(v) => (m, Ok(AddressingMode::AbsIndexedX(v))),
        }
    }

    /// An address in the data bank to be indexed by Y.
    pub open spec fn absolute_indexed_y(self) -> (Machine, Result<AddressingMode, Fault>) {
        let (m, r) = self.fetchw();
        match r {
            Err(e) => (m, Err(e)),
            Ok(v) => (m, Ok(AddressingMode::AbsIndexedY(v))),
        }
    }

    /// A 24-bit location: address first, then bank.
    pub open spec fn absolute_long(self) -> (Machine, Result<AddressingMode, Fault>) {
        let (m1, r1) = self.fetchw();
        match r1 {
            Err(e) => (m1, Err(e)),
            Ok(addr) => {
                let (m2, r2) = m1.fetchb();
                match r2 {
                    Err(e) => (m2, Err(e)),
                    Ok(bank) => (m2, Ok(AddressingMode::AbsoluteLong(bank, addr))),
                }
            },
        }
    }

    /// A 24-bit location to be indexed by X.
    pub open spec fn absolute_long_indexed_x(self) -> (Machine, Result<AddressingMode, Fault>) {
        let (m1, r1) = self.fetchw();
        match r1 {
            Err(e) => (m1, Err(e)),
            Ok(addr) => {
                let (m2, r2) = m1.fetchb();
                match r2 {
                    Err(e) => (m2, Err(e)),
                    Ok(bank) => (m2, Ok(AddressingMode::AbsLongIndexedX(bank, addr))),
                }
            },
        }
    }

    /// A direct-page offset of a long pointer.
    pub open spec fn direct_indirect_long(self) -> (Machine, Result<AddressingMode, Fault>) {
        let (m, r) = self.fetchb();
        match r {
            Err(e) => (m, Err(e)),
            Ok(v) => (m, Ok(AddressingMode::DirectIndirectLong(v))),
        }
    }

    /// A direct-page offset of a long pointer to be indexed by Y.
    pub open spec fn direct_indirect_long_idx(self) -> (Machine, Result<AddressingMode, Fault>) {
        let (m, r) = self.fetchb();
        match r {
            Err(e) => (m, Err(e)),
            Ok(v) => (m, Ok(AddressingMode::DirectIndirectLongIdx(v))),
        }
    }

    /// A byte immediate.
    pub open spec fn immediate8(self) -> (Machine, Result<AddressingMode, Fault>) {
        let (m, r) = self.fetchb();
        match r {
            Err(e) => (m, Err(e)),
            Ok(v) => (m, Ok(AddressingMode::Immediate8(v))),
        }
    }

    /// An immediate of the accumulator width.
    pub open spec fn immediate_acc(self) -> (Machine, Result<AddressingMode, Fault>) {
        if self.small_acc() {
            self.immediate8()
        } else {
            let (m, r) = self.fetchw();
            match r {
                Err(e) => (m, Err(e)),
                Ok(v) => (m, Ok(AddressingMode::Immediate(v))),
            }
        }
    }

    /// An immediate of the index width.
    pub open spec fn immediate_index(self) -> (Machine, Result<AddressingMode, Fault>) {
        if self.small_idx() {
            self.immediate8()
        } else {
            let (m, r) = self.fetchw();
            match r {
                Err(e) => (m, Err(e)),
                Ok(v) => (m, Ok(AddressingMode::Immediate(v))),
            }
        }
    }

    /// A signed byte displacement.
    pub open spec fn rel(self) -> (Machine, Result<AddressingMode, Fault>) {
        let (m, r) = self.fetchb();
        match r {
            Err(e) => (m, Err(e)),
            Ok(v) => (m, Ok(AddressingMode::Rel(signed8(v) as i8))),
        }
    }

    /// A signed word displacement.
    pub open spec fn relative_long(self) -> (Machine, Result<AddressingMode, Fault>) {
        let (m, r) = self.fetchw();
        match r {
            Err(e) => (m, Err(e)),
            Ok(v) => (m, Ok(AddressingMode::RelLong(signed16(v) as i16))),
        }
    }

    /// The operand that a decoder reads at the program counter.
    pub open spec fn operand(self, decoder: Decoder) -> (Machine, Result<AddressingMode, Fault>) {
        match decoder {
            Decoder::Immediate8 => self.immediate8(),
            Decoder::ImmediateAcc => self.immediate_acc(),
            Decoder::ImmediateIndex => self.immediate_index(),
            Decoder::Direct => self.direct(),
            Decoder::DirectIndirectLong => self.direct_indirect_long(),
            Decoder::DirectIndirectLongIdx => self.direct_indirect_long_idx(),
            Decoder::Absolute => self.absolute(),
            Decoder::AbsoluteIndexedX => self.absolute_indexed_x(),
            Decoder::AbsoluteIndexedY => self.absolute_indexed_y(),
            Decoder::AbsoluteLong => self.absolute_long(),
            Decoder::AbsoluteLongIndexedX => self.absolute_long_indexed_x(),
            Decoder::Rel => self.rel(),
            Decoder::RelativeLong => self.relative_long(),
        }
    }

    /// What an instruction without operand does.
    pub open spec fn run_implied(self, instruction: Implied) -> (Machine, Result<(), Fault>) {
        match instruction {
            Implied::AslA => (self.asl_a(), Ok(())),
            Implied::LsrA => (self.lsr_a(), Ok(())),
            Implied::Rts => self.rts(),
            Implied::Rtl => self.rtl(),
            Implied::Tax => (self.tax(), Ok(())),
            Implied::Txa => (self.txa(), Ok(())),
            Implied::Txs => (self.txs(), Ok(())),
            Implied::Tyx => (self.tyx(), Ok(())),
            Implied::Xba => (self.xba(), Ok(())),
            Implied::Pha => self.pha(),
            Implied::Phx => self.phx(),
            Implied::Phy => self.phy(),
            Implied::Pla => self.pla(),
            Implied::Plx => self.plx(),
            Implied::Ply => self.ply(),
            Implied::Inx => (self.inx(), Ok(())),
            Implied::Dex => (self.dex(), Ok(())),
            Implied::Iny => (self.iny(), Ok(())),
            Implied::Dey => (self.dey(), Ok(())),
            Implied::Clc => (self.clc(), Ok(())),
            Implied::Cld => (self.cld(), Ok(())),
            Implied::Cli => (self.cli(), Ok(())),
            Implied::Clv => (self.clv(), Ok(())),
            Implied::Sec => (self.sec(), Ok(())),
            Implied::Sed => (self.sed(), Ok(())),
            Implied::Sei => (self.sei(), Ok(())),
            Implied::Xce => (self.xce(), Ok(())),
            Implied::Stp => (self.stp(), Ok(())),
            Implied::Wai => (self.wai(), Ok(())),
        }
    }

    /// What an instruction does with its operand.
    pub open spec fn run(self, operation: Operation, am: AddressingMode) -> (Machine, Result<
        (),
        Fault,
    >) {
        match operation {
            Operation::Sbc => self.sbc(am),
            Operation::Adc => self.adc(am),
            Operation::And => self.and(am),
            Operation::Ora => self.ora(am),
            Operation::Bra => self.bra(am),
            Operation::Beq => self.beq(am),
            Operation::Bmi => self.bmi(am),
            Operation::Bne => self.bne(am),
            Operation::Jmp => self.jmp(am),
            Operation::Jml => self.jml(am),
            Operation::Jsr => self.jsr(am),
            Operation::Jsl => self.jsl(am),
            Operation::Cmp => self.cmp(am),
            Operation::Cpx => self.cpx(am),
            Operation::Cpy => self.cpy(am),
            Operation::Lda => self.lda(am),
            Operation::Ldx => self.ldx(am),
            Operation::Ldy => self.ldy(am),
            Operation::Sta => self.sta(am),
            Operation::Stx => self.stx(am),
            Operation::Sty => self.sty(am),
            Operation::Inc => self.inc(am),
            Operation::Rep => self.rep(am),
            Operation::Sep => self.sep(am),
        }
    }

    /// Everything that follows the fetch of `opcode`: the table lookup, the
    /// operand decode and the instruction itself. An opcode without entry
    /// is a fault that names the opcode and where it was fetched.
    pub open spec fn execute(self, opcode: u8) -> (Machine, Result<(), Fault>) {
        match decode(opcode) {
            None => (
                self,
                Err(
                    Fault::UnimplementedOpcode {
                        opcode,
                        bank: self.pbr,
                        pc: self.pc.wrapping_sub(1),
                    },
                ),
            ),
            Some(Entry::Implied(instruction)) => self.run_implied(instruction),
            Some(Entry::Operand(operation, decoder)) => {
                let (m, r) = self.operand(decoder);
                match r {
                    Err(e) => (m, Err(e)),
                    Ok(am) => m.run(operation, am),
                }
            },
        }
    }

    /// One step of the core. A core that is not running stays as it is and
    /// reports its status. A running core fetches an opcode at `PBR:PC`,
    /// executes it and reports the status it then has.
    pub open spec fn step(self) -> (Machine, Result<RunStatus, Fault>) {
        if self.run_status != RunStatus::Running {
            (self, Ok(self.run_status))
        } else {
            let (m1, r1) = self.fetchb();
            match r1 {
                Err(e) => (m1, Err(e)),
                Ok(opcode) => {
                    let (m2, r2) = m1.execute(opcode);
                    match r2 {
                        Err(e) => (m2, Err(e)),
                        Ok(_) => (m2, Ok(m2.run_status)),
                    }
                },
            }
        }
    }
}

impl W65C816 {
    /// A direct-page offset.
    pub fn direct(&mut self) -> (r: Result<AddressingMode, Fault>)
        requires
            old(self)@.wf(),
        ensures
            final(self)@.wf(),
            (final(self)@, r) == old(self)@.direct(),
    {
        Ok(AddressingMode::Direct(self.fetchb()?))
    }

    /// An address in the data bank.
    pub fn absolute(&mut self) -> (r: Result<AddressingMode, Fault>)
        requires
            old(self)@.wf(),
        ensures
            final(self)@.wf(),
            (final(self)@, r) == old(self)@.absolute(),
    {
        Ok(AddressingMode::Absolute(self.fetchw()?))
    }

    /// An address in the data bank to be indexed by X.
    pub fn absolute_indexed_x(&mut self) -> (r: Result<AddressingMode, Fault>)
        requires
            old(self)@.wf(),
        ensures
            final(self)@.wf(),
            (final(self)@, r) == old(self)@.absolute_indexed_x(),
    {
        Ok(AddressingMode::AbsIndexedX(self.fetchw()?))
    }

    /// An address in the data bank to be indexed by Y.
    pub fn absolute_indexed_y(&mut self) -> (r: Result<AddressingMode, Fault>)
        requires
            old(self)@.wf(),
        ensures
            final(self)@.wf(),
            (final(self)@, r) == old(self)@.absolute_indexed_y(),
    {
        Ok(AddressingMode::AbsIndexedY(self.fetchw()?))
    }

    /// A 24-bit location: address first, then bank.
    pub fn absolute_long(&mut self) -> (r: Result<AddressingMode, Fault>)
        requires
            old(self)@.wf(),
        ensures
            final(self)@.wf(),
            (final(self)@, r) == old(self)@.absolute_long(),
    {
        let addr: u16 = self.fetchw()?;
        let bank: u8 = self.fetchb()?;
        Ok(AddressingMode::AbsoluteLong(bank, addr))
    }

    /// A 24-bit location to be indexed by X.
    pub fn absolute_long_indexed_x(&mut self) -> (r: Result<AddressingMode, Fault>)
        requires
            old(self)@.wf(),
        ensures
            final(self)@.wf(),
            (final(self)@, r) == old(self)@.absolute_long_indexed_x(),
    {
        let addr: u16 = self.fetchw()?;
        let bank: u8 = self.fetchb()?;
        Ok(AddressingMode::AbsLongIndexedX(bank, addr))
    }

    /// A direct-page offset of a long pointer.
    pub fn direct_indirect_long(&mut self) -> (r: Result<AddressingMode, Fault>)
        requires
            old(self)@.wf(),
        ensures
            final(self)@.wf(),
            (final(self)@, r) == old(self)@.direct_indirect_long(),
    {
        Ok(AddressingMode::DirectIndirectLong(self.fetchb()?))
    }

    /// A direct-page offset of a long pointer to be indexed by Y.
    pub fn direct_indirect_long_idx(&mut self) -> (r: Result<AddressingMode, Fault>)
        requires
            old(self)@.wf(),
        ensures
            final(self)@.wf(),
            (final(self)@, r) == old(self)@.direct_indirect_long_idx(),
    {
        Ok(AddressingMode::DirectIndirectLongIdx(self.fetchb()?))
    }

    /// A byte immediate.
    pub fn immediate8(&mut self) -> (r: Result<AddressingMode, Fault>)
        requires
            old(self)@.wf(),
        ensures
            final(self)@.wf(),
            (final(self)@, r) == old(self)@.immediate8(),
    {
        Ok(AddressingMode::Immediate8(self.fetchb()?))
    }

    /// An immediate of the accumulator width.
    pub fn immediate_acc(&mut self) -> (r: Result<AddressingMode, Fault>)
        requires
            old(self)@.wf(),
        ensures
            final(self)@.wf(),
            (final(self)@, r) == old(self)@.immediate_acc(),
    {
        if self.p.small_acc() {
            Ok(AddressingMode::Immediate8(self.fetchb()?))
        } else {
            Ok(AddressingMode::Immediate(self.fetchw()?))
        }
    }

    /// An immediate of the index width.
    pub fn immediate_index(&mut self) -> (r: Result<AddressingMode, Fault>)
        requires
            old(self)@.wf(),
        ensures
            final(self)@.wf(),
            (final(self)@, r) == old(self)@.immediate_index(),
    {
        if self.p.small_idx() {
            Ok(AddressingMode::Immediate8(self.fetchb()?))
        } else {
            Ok(AddressingMode::Immediate(self.fetchw()?))
        }
    }

    /// A signed byte displacement.
    pub fn rel(&mut self) -> (r: Result<AddressingMode, Fault>)
        requires
            old(self)@.wf(),
        ensures
            final(self)@.wf(),
            (final(self)@, r) == old(self)@.rel(),
    {
        Ok(AddressingMode::Rel(to_signed8(self.fetchb()?)))
    }

    /// A signed word displacement.
    pub fn relative_long(&mut self) -> (r: Result<AddressingMode, Fault>)
        requires
            old(self)@.wf(),
        ensures
            final(self)@.wf(),
            (final(self)@, r) == old(self)@.relative_long(),
    {
        Ok(AddressingMode::RelLong(to_signed16(self.fetchw()?)))
    }

    /// Reads the operand that `decoder` describes at the program counter.
    pub fn operand(&mut self, decoder: Decoder) -> (r: Result<AddressingMode, Fault>)
        requires
            old(self)@.wf(),
        ensures
            final(self)@.wf(),
            (final(self)@, r) == old(self)@.operand(decoder),
    {
        match decoder {
            Decoder::Immediate8 => self.immediate8(),
            Decoder::ImmediateAcc => self.immediate_acc(),
            Decoder::ImmediateIndex => self.immediate_index(),
            Decoder::Direct => self.direct(),
            Decoder::DirectIndirectLong => self.direct_indirect_long(),
            Decoder::DirectIndirectLongIdx => self.direct_indirect_long_idx(),
            Decoder::Absolute => self.absolute(),
            Decoder::AbsoluteIndexedX => self.absolute_indexed_x(),
            Decoder::AbsoluteIndexedY => self.absolute_indexed_y(),
            Decoder::AbsoluteLong => self.absolute_long(),
            Decoder::AbsoluteLongIndexedX => self.absolute_long_indexed_x(),
            Decoder::Rel => self.rel(),
            Decoder::RelativeLong => self.relative_long(),
        }
    }

    /// Runs an instruction that takes no operand.
    pub fn run_implied(&mut self, instruction: Implied) -> (r: Result<(), Fault>)
        requires
            old(self)@.wf(),
        ensures
            final(self)@.wf(),
            (final(self)@, r) == old(self)@.run_implied(instruction),
    {
        match instruction {
            Implied::AslA => {
                self.asl_a();
                Ok(())
            },
            Implied::LsrA => {
                self.lsr_a();
                Ok(())
            },
            Implied::Rts => self.rts(),
            Implied::Rtl => self.rtl(),
            Implied::Tax => {
                self.tax();
                Ok(())
            },
            Implied::Txa => {
                self.txa();
                Ok(())
            },
            Implied::Txs => {
                self.txs();
                Ok(())
            },
            Implied::Tyx => {
                self.tyx();
                Ok(())
            },
            Implied::Xba => {
                self.xba();
                Ok(())
            },
            Implied::Pha => self.pha(),
            Implied::Phx => self.phx(),
            Implied::Phy => self.phy(),
            Implied::Pla => self.pla(),
            Implied::Plx => self.plx(),
            Implied::Ply => self.ply(),
            Implied::Inx => {
                self.inx();
                Ok(())
            },
            Implied::Dex => {
                self.dex();
                Ok(())
            },
            Implied::Iny => {
                self.iny();
                Ok(())
            },
            Implied::Dey => {
                self.dey();
                Ok(())
            },
            Implied::Clc => {
                self.clc();
                Ok(())
            },
            Implied::Cld => {
                self.cld();
                Ok(())
            },
            Implied::Cli => {
                self.cli();
                Ok(())
            },
            Implied::Clv => {
                self.clv();
                Ok(())
            },
            Implied::Sec => {
                self.sec();
                Ok(())
            },
            Implied::Sed => {
                self.sed();
                Ok(())
            },
            Implied::Sei => {
                self.sei();
                Ok(())
            },
            Implied::Xce => {
                self.xce();
                Ok(())
            },
            Implied::Stp => {
                self.stp();
                Ok(())
            },
            Implied::Wai => {
                self.wai();
                Ok(())
            },
        }
    }

    /// Runs an instruction on its decoded operand.
    pub fn run(&mut self, operation: Operation, am: AddressingMode) -> (r: Result<(), Fault>)
        requires
            old(self)@.wf(),
        ensures
            final(self)@.wf(),
            (final(self)@, r) == old(self)@.run(operation, am),
    {
        match operation {
            Operation::Sbc => self.sbc(am),
            Operation::Adc => self.adc(am),
            Operation::And => self.and(am),
            Operation::Ora => self.ora(am),
            Operation::Bra => self.bra(am),
            Operation::Beq => self.beq(am),
            Operation::Bmi => self.bmi(am),
            Operation::Bne => self.bne(am),
            Operation::Jmp => self.jmp(am),
            Operation::Jml => self.jml(am),
            Operation::Jsr => self.jsr(am),
            Operation::Jsl => self.jsl(am),
            Operation::Cmp => self.cmp(am),
            Operation::Cpx => self.cpx(am),
            Operation::Cpy => self.cpy(am),
            Operation::Lda => self.lda(am),
            Operation::Ldx => self.ldx(am),
            Operation::Ldy => self.ldy(am),
            Operation::Sta => self.sta(am),
            Operation::Stx => self.stx(am),
            Operation::Sty => self.sty(am),
            Operation::Inc => self.inc(am),
            Operation::Rep => self.rep(am),
            Operation::Sep => self.sep(am),
        }
    }

    /// Executes one instruction, unless the core has stopped or waits.
    ///
    /// The outcome is that of one step of the model. Of every step it holds
    /// besides: a core that is not running is left as it is; the index
    /// registers have no high byte in 8-bit index mode, if the index width
    /// was 16-bit before or they had none before; and while the stack
    /// pointer is in page 1 in emulation mode it stays there, and the
    /// step raises no stack-page fault.
    pub fn instruction(&mut self) -> (r: Result<RunStatus, Fault>)
        requires
            old(self)@.wf(),
        ensures
            final(self)@.wf(),
            (final(self)@, r) == old(self)@.step(),
            old(self)@.run_status != RunStatus::Running ==> final(self)@ == old(self)@ && r == Ok::<
                RunStatus,
                Fault,
            >(old(self)@.run_status),
            keeps_index(old(self)@, final(self)@),
            old(self)@.stack_in_page() ==> final(self)@.stack_in_page() && r != Err::<
                RunStatus,
                Fault,
            >(Fault::StackPage),
    {
        proof {
            lemma_step_invariants(old(self)@);
        }
        if self.run_status != RunStatus::Running {
            return Ok(self.run_status);
        }
        let opcode: u8 = self.fetchb()?;
        match lookup(opcode) {
            None => {
                return Err(
                    Fault::UnimplementedOpcode {
                        opcode,
                        bank: self.pbr,
                        pc: self.pc.wrapping_sub(1),
                    },
                );
            },
            Some(Entry::Implied(instruction)) => {
                self.run_implied(instruction)?;
            },
            Some(Entry::Operand(operation, decoder)) => {
                let am: AddressingMode = self.operand(decoder)?;
                self.run(operation, am)?;
            },
        }
        Ok(self.run_status)
    }
}
} // verus!
