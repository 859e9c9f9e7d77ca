//! Theorems about single instructions and pairs of them: what the flags
//! mean, what the mode changes do, and which instructions undo each other.

use super::addressing::AddressingMode;
use super::invariants::lemma_operand_access_frame;
use super::status::{
    lemma_nz_flags, lemma_with_has, Status, CARRY_FLAG, NEG_FLAG, SMALL_ACC_FLAG, SMALL_IDX_FLAG,
    ZERO_FLAG,
};
use super::{Machine, RunStatus};
use crate::fault::Fault;
use crate::word::{high, low, signed16, signed8};
use vstd::prelude::*;

verus! {

/// A word below 256 has no bit set in its high byte.
pub proof fn lemma_high_bits_clear(w: u16)
    requires
        w <= 0xFF,
    ensures
        w & 0xFF00 == 0,
{
    assert(w <= 0xFF ==> w & 0xFF00 == 0) by (bit_vector);
}

/// Recording an 8-bit result sets Zero iff the value is zero and Negative
/// iff its bit 7 is set.
pub proof fn lemma_nz8(p: Status, val: u8)
    ensures
        p.nz8(val).has(ZERO_FLAG) <==> val == 0,
        p.nz8(val).has(NEG_FLAG) <==> val & 0x80 != 0,
{
    lemma_nz_flags(p, val == 0, val & 0x80 != 0);
}

/// Recording a 16-bit result sets Zero iff the value is zero and Negative
/// iff its bit 15 is set.
pub proof fn lemma_nz16(p: Status, val: u16)
    ensures
        p.nz16(val).has(ZERO_FLAG) <==> val == 0,
        p.nz16(val).has(NEG_FLAG) <==> val & 0x8000 != 0,
{
    lemma_nz_flags(p, val == 0, val & 0x8000 != 0);
}

/// Whenever a write of the status byte turns the index width from 16 to
/// 8 bits, X and Y have no high byte as soon as the write is done.
pub proof fn lemma_set_p_truncates(m: Machine, new: u8)
    requires
        !m.small_idx(),
        m.set_p(new).small_idx(),
    ensures
        m.set_p(new).x & 0xFF00 == 0,
        m.set_p(new).y & 0xFF00 == 0,
{
    lemma_high_bits_clear(m.set_p(new).x);
    lemma_high_bits_clear(m.set_p(new).y);
}

/// Whenever REP or SEP turns the index width from 16 to 8 bits, X and Y
/// have no high byte when the instruction is done.
pub proof fn lemma_rep_sep_truncate(m: Machine, am: AddressingMode)
    requires
        !m.small_idx(),
    ensures
        m.rep(am).0.small_idx() ==> m.rep(am).0.x & 0xFF00 == 0 && m.rep(am).0.y & 0xFF00 == 0,
        m.sep(am).0.small_idx() ==> m.sep(am).0.x & 0xFF00 == 0 && m.sep(am).0.y & 0xFF00 == 0,
{
    lemma_operand_access_frame(m, am);
    if m.rep(am).0.small_idx() {
        lemma_high_bits_clear(m.rep(am).0.x);
        lemma_high_bits_clear(m.rep(am).0.y);
    }
    if m.sep(am).0.small_idx() {
        lemma_high_bits_clear(m.sep(am).0.x);
        lemma_high_bits_clear(m.sep(am).0.y);
    }
}

/// XCE exchanges Carry and the emulation flag. On the way from native
/// into emulation mode X and Y lose their high bytes, the stack pointer
/// lies in page 1 and both widths are 8-bit.
pub proof fn lemma_xce(m: Machine)
    ensures
        m.xce().emulation == m.p.has(CARRY_FLAG),
        m.xce().p.has(CARRY_FLAG) == m.emulation,
        !m.emulation && m.p.has(CARRY_FLAG) ==> {
            &&& m.xce().x & 0xFF00 == 0
            &&& m.xce().y & 0xFF00 == 0
            &&& m.xce().x == low(m.x)
            &&& m.xce().y == low(m.y)
            &&& high(m.xce().s) == 0x01
            &&& low(m.xce().s) == low(m.s)
            &&& m.xce().small_acc()
            &&& m.xce().small_idx()
        },
{
    let swapped = m.p.with(CARRY_FLAG, m.emulation);
    lemma_with_has(m.p, CARRY_FLAG, CARRY_FLAG, m.emulation);
    if !m.emulation && m.p.has(CARRY_FLAG) {
        let narrow = swapped.with(SMALL_ACC_FLAG, true);
        lemma_with_has(swapped, SMALL_ACC_FLAG, CARRY_FLAG, true);
        lemma_with_has(narrow, SMALL_IDX_FLAG, CARRY_FLAG, true);
        lemma_with_has(swapped, SMALL_ACC_FLAG, SMALL_ACC_FLAG, true);
        lemma_with_has(narrow, SMALL_IDX_FLAG, SMALL_ACC_FLAG, true);
        lemma_with_has(narrow, SMALL_IDX_FLAG, SMALL_IDX_FLAG, true);
        lemma_high_bits_clear(m.xce().x);
        lemma_high_bits_clear(m.xce().y);
    }
}

/// A byte pushed is the byte pulled, and the stack pointer is back where
/// it was.
#[verifier::rlimit(50)]
pub proof fn lemma_push_pop_byte(m: Machine, value: u8)
    requires
        m.wf(),
        m.pushb(value).1 is Ok,
    ensures
        m.pushb(value).0.popb().1 == Ok::<u8, Fault>(value),
        m.pushb(value).0.popb().0.s == m.s,
        m.pushb(value).0.wf(),
{
}

/// A word pushed is the word pulled, and the stack pointer is back where
/// it was.
#[verifier::rlimit(50)]
pub proof fn lemma_push_pop_word(m: Machine, value: u16)
    requires
        m.wf(),
        m.pushw(value).1 is Ok,
    ensures
        m.pushw(value).0.popw().1 == Ok::<u16, Fault>(value),
        m.pushw(value).0.popw().0.s == m.s,
        m.pushw(value).0.popw().0.pc == m.pc,
        m.pushw(value).0.popw().0.pbr == m.pbr,
        m.pushw(value).0.popw().0.a == m.a,
{
    let m1 = m.pushb(high(value)).0;
    let m2 = m1.pushb(low(value)).0;
    lemma_push_pop_byte(m1, low(value));
    let m3 = m2.popb().0;
    assert(m3.s == m1.s);
    assert(m3.bus.value(0, m.s) == high(value));
}

/// PHA followed at once by PLA leaves the accumulator and the stack
/// pointer as they were, at either accumulator width.
pub proof fn lemma_pha_pla(m: Machine)
    requires
        m.wf(),
        m.pha().1 is Ok,
    ensures
        m.pha().0.pla().1 is Ok,
        m.pha().0.pla().0.a == m.a,
        m.pha().0.pla().0.s == m.s,
{
    if m.small_acc() {
        lemma_push_pop_byte(m, low(m.a));
    } else {
        lemma_push_pop_word(m, m.a);
    }
}

/// JSR followed by RTS at the target brings the program counter back to
/// the instruction after the call, and the stack pointer to where it was.
pub proof fn lemma_jsr_rts(m: Machine, target: u16)
    requires
        m.wf(),
        m.jsr(AddressingMode::Absolute(target)).1 is Ok,
    ensures
        m.jsr(AddressingMode::Absolute(target)).0.pc == target,
        m.jsr(AddressingMode::Absolute(target)).0.pbr == m.pbr,
        m.jsr(AddressingMode::Absolute(target)).0.rts().1 is Ok,
        m.jsr(AddressingMode::Absolute(target)).0.rts().0.pc == m.pc,
        m.jsr(AddressingMode::Absolute(target)).0.rts().0.pbr == m.pbr,
        m.jsr(AddressingMode::Absolute(target)).0.rts().0.s == m.s,
{
    lemma_push_pop_word(m, m.pc.wrapping_sub(1));
}

/// PHX followed at once by PLX, and PHY by PLY, leave the index register
/// and the stack pointer as they were, at either index width.
pub proof fn lemma_index_push_pull(m: Machine)
    requires
        m.wf(),
    ensures
        m.phx().1 is Ok ==> m.phx().0.plx().1 is Ok && m.phx().0.plx().0.x == m.x
            && m.phx().0.plx().0.s == m.s,
        m.phy().1 is Ok ==> m.phy().0.ply().1 is Ok && m.phy().0.ply().0.y == m.y
            && m.phy().0.ply().0.s == m.s,
{
    if m.phx().1 is Ok {
        if m.small_idx() {
            lemma_push_pop_byte(m, low(m.x));
        } else {
            lemma_push_pop_word(m, m.x);
        }
    }
    if m.phy().1 is Ok {
        if m.small_idx() {
            lemma_push_pop_byte(m, low(m.y));
        } else {
            lemma_push_pop_word(m, m.y);
        }
    }
}

/// JSL followed by RTL at the target brings program bank and program
/// counter back to the instruction after the call, and the stack pointer
/// to where it was.
#[verifier::rlimit(50)]
pub proof fn lemma_jsl_rtl(m: Machine, bank: u8, target: u16)
    requires
        m.wf(),
        m.jsl(AddressingMode::AbsoluteLong(bank, target)).1 is Ok,
    ensures
        m.jsl(AddressingMode::AbsoluteLong(bank, target)).0.pc == target,
        m.jsl(AddressingMode::AbsoluteLong(bank, target)).0.pbr == bank,
        m.jsl(AddressingMode::AbsoluteLong(bank, target)).0.rtl().1 is Ok,
        m.jsl(AddressingMode::AbsoluteLong(bank, target)).0.rtl().0.pc == m.pc,
        m.jsl(AddressingMode::AbsoluteLong(bank, target)).0.rtl().0.pbr == m.pbr,
        m.jsl(AddressingMode::AbsoluteLong(bank, target)).0.rtl().0.s == m.s,
{
    let m1 = m.pushb(m.pbr).0;
    lemma_push_pop_byte(m, m.pbr);
    lemma_push_pop_word(m1, m1.pc.wrapping_sub(1));
    let m2 = m1.pushw(m1.pc.wrapping_sub(1)).0;
    let called = m.jsl(AddressingMode::AbsoluteLong(bank, target)).0;
    assert(called == (Machine { pbr: bank, pc: target, ..m2 }));
    let m3 = called.popw().0;
    assert(m3.s == m1.s);
    assert(m3.bus.value(0, m.s) == m.pbr);
}

/// Bit 7 of a byte is set iff the byte is 128 or more, and bit 15 of a
/// word iff the word is 32768 or more: Negative is the sign of the result
/// read as a two's-complement number.
pub proof fn lemma_negative_is_sign(p: Status, byte: u8, word: u16)
    ensures
        p.nz8(byte).has(NEG_FLAG) <==> signed8(byte) < 0,
        p.nz16(word).has(NEG_FLAG) <==> signed16(word) < 0,
{
    lemma_nz8(p, byte);
    lemma_nz16(p, word);
    assert((byte & 0x80 != 0) == (byte >= 0x80)) by (bit_vector);
    assert((word & 0x8000 != 0) == (word >= 0x8000)) by (bit_vector);
}

/// The accumulator shifts as arithmetic: left is doubling modulo the
/// width with the top bit going to Carry, right is halving with the
/// bottom bit going to Carry.
pub proof fn lemma_shifts(m: Machine)
    ensures
        m.small_acc() ==> {
            &&& low(m.asl_a().a) == (2 * low(m.a)) % 0x100
            &&& high(m.asl_a().a) == high(m.a)
            &&& m.asl_a().p.has(CARRY_FLAG) == (low(m.a) >= 0x80)
            &&& low(m.lsr_a().a) == low(m.a) / 2
            &&& high(m.lsr_a().a) == high(m.a)
            &&& m.lsr_a().p.has(CARRY_FLAG) == (low(m.a) % 2 == 1)
        },
        !m.small_acc() ==> {
            &&& m.asl_a().a == (2 * m.a) % 0x10000
            &&& m.asl_a().p.has(CARRY_FLAG) == (m.a >= 0x8000)
            &&& m.lsr_a().a == m.a / 2
            &&& m.lsr_a().p.has(CARRY_FLAG) == (m.a % 2 == 1)
        },
{
    let a: u16 = m.a;
    let b: u8 = low(a);
    let left = m.p.with(CARRY_FLAG, a & 0x80 != 0);
    let left16 = m.p.with(CARRY_FLAG, a & 0x8000 != 0);
    let right = m.p.with(CARRY_FLAG, a & 0x01 != 0);
    lemma_with_has(m.p, CARRY_FLAG, CARRY_FLAG, a & 0x80 != 0);
    lemma_with_has(m.p, CARRY_FLAG, CARRY_FLAG, a & 0x8000 != 0);
    lemma_with_has(m.p, CARRY_FLAG, CARRY_FLAG, a & 0x01 != 0);
    lemma_carry_survives_nz(left, (b << 1) == 0, (b << 1) & 0x80 != 0);
    lemma_carry_survives_nz(left16, (a << 1) == 0, (a << 1) & 0x8000 != 0);
    lemma_carry_survives_nz(right, (b >> 1) == 0, (b >> 1) & 0x80 != 0);
    lemma_carry_survives_nz(right, (a >> 1) == 0, (a >> 1) & 0x8000 != 0);
    assert((a & 0x80 != 0) == ((a % 256) as u8 >= 0x80)) by (bit_vector);
    assert((a & 0x01 != 0) == (((a % 256) as u8) % 2 == 1)) by (bit_vector);
    assert((a & 0x01 != 0) == (a % 2 == 1)) by (bit_vector);
    assert((a & 0x8000 != 0) == (a >= 0x8000)) by (bit_vector);
    assert(b << 1 == (2 * b) % 0x100) by (bit_vector);
    assert(b >> 1 == b / 2) by (bit_vector);
    assert(a << 1 == (2 * a) % 0x10000) by (bit_vector);
    assert(a >> 1 == a / 2) by (bit_vector);
}

/// Recording a result in Zero and Negative leaves Carry.
proof fn lemma_carry_survives_nz(p: Status, z: bool, n: bool)
    ensures
        p.with(ZERO_FLAG, z).with(NEG_FLAG, n).has(CARRY_FLAG) == p.has(CARRY_FLAG),
{
    lemma_with_has(p, ZERO_FLAG, CARRY_FLAG, z);
    lemma_with_has(p.with(ZERO_FLAG, z), NEG_FLAG, CARRY_FLAG, n);
}

/// A comparison sets Zero iff the operands are equal, Carry iff the
/// register is not below the operand, and Negative iff the difference
/// modulo the width has its top bit set.
pub proof fn lemma_compare(m: Machine, a: u16, b: u16)
    ensures
        m.compare(a, b).p.has(ZERO_FLAG) <==> a == b,
        m.compare(a, b).p.has(CARRY_FLAG) <==> a >= b,
        m.compare(a, b).p.has(NEG_FLAG) <==> (a - b) % 0x10000 >= 0x8000,
        m.compare(a, b) == (Machine { p: m.compare(a, b).p, ..m }),
{
    let d: u16 = a.wrapping_sub(b);
    let zeroed = m.p.with(ZERO_FLAG, a == b);
    let carried = zeroed.with(CARRY_FLAG, a >= b);
    lemma_with_has(m.p, ZERO_FLAG, ZERO_FLAG, a == b);
    lemma_with_has(zeroed, CARRY_FLAG, ZERO_FLAG, a >= b);
    lemma_with_has(zeroed, CARRY_FLAG, CARRY_FLAG, a >= b);
    lemma_with_has(carried, NEG_FLAG, ZERO_FLAG, d & 0x8000 != 0);
    lemma_with_has(carried, NEG_FLAG, CARRY_FLAG, d & 0x8000 != 0);
    lemma_with_has(carried, NEG_FLAG, NEG_FLAG, d & 0x8000 != 0);
    assert((d & 0x8000 != 0) == (d >= 0x8000)) by (bit_vector);
    assert(d == (a - b) % 0x10000) by {
        if a >= b {
            assert(d == a - b);
        } else {
            assert(d == a - b + 0x10000);
        }
    }
}

/// Wrapping addition of words is addition modulo 65536.
pub proof fn lemma_wrapping_add(a: u16, b: u16)
    ensures
        a.wrapping_add(b) == (a + b) % 0x10000,
{
    if a + b > 0xFFFF {
        assert((a + b) % 0x10000 == a + b - 0x10000);
    } else {
        assert((a + b) % 0x10000 == a + b);
    }
}

/// The effective addresses of the shapes that add an unsigned quantity
/// within a bank, as arithmetic modulo 65536: the direct page offset added
/// to D in bank 0, and the index at its width added to the address in the
/// data bank. None of them touches the machine.
pub proof fn lemma_effective_addresses(m: Machine, offset: u8, addr: u16)
    ensures
        m.address(AddressingMode::Direct(offset)) == (
            m,
            Ok::<(u8, u16), Fault>((0u8, ((m.d + offset) % 0x10000) as u16)),
        ),
        m.address(AddressingMode::Absolute(addr)) == (m, Ok::<(u8, u16), Fault>((m.dbr, addr))),
        m.address(AddressingMode::AbsIndexedX(addr)) == (
            m,
            Ok::<(u8, u16), Fault>((m.dbr, ((addr + m.index_x()) % 0x10000) as u16)),
        ),
        m.address(AddressingMode::AbsIndexedY(addr)) == (
            m,
            Ok::<(u8, u16), Fault>((m.dbr, ((addr + m.index_y()) % 0x10000) as u16)),
        ),
        !m.small_idx() ==> m.index_x() == m.x && m.index_y() == m.y,
        m.small_idx() ==> m.index_x() == m.x % 0x100 && m.index_y() == m.y % 0x100,
{
    lemma_wrapping_add(m.d, offset as u16);
    lemma_wrapping_add(addr, m.index_x());
    lemma_wrapping_add(addr, m.index_y());
}

/// The target of a relative branch: the signed displacement added to the
/// program counter modulo 65536, in the program bank.
pub proof fn lemma_branch_targets(m: Machine, near: i8, far: i16)
    ensures
        m.address(AddressingMode::Rel(near)) == (
            m,
            Ok::<(u8, u16), Fault>((m.pbr, ((m.pc + near) % 0x10000) as u16)),
        ),
        m.address(AddressingMode::RelLong(far)) == (
            m,
            Ok::<(u8, u16), Fault>((m.pbr, ((m.pc + far) % 0x10000) as u16)),
        ),
{
}

/// A core that has stopped or waits stays exactly as it is, and a step
/// reports the status it has.
pub proof fn lemma_halted_is_fixed(m: Machine)
    requires
        m.run_status != RunStatus::Running,
    ensures
        m.step() == (m, Ok::<RunStatus, Fault>(m.run_status)),
{
}

} // verus!
