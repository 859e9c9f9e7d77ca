//! What every step of every machine keeps in order: the index registers
//! in 8-bit index mode, the stack pointer in emulation mode, and the run
//! status.

use super::addressing::AddressingMode;
use super::decode::{decode, Decoder, Entry, Implied, Operation};
use super::laws::lemma_high_bits_clear;
use super::status::{is_flag, lemma_with_has, Status, SMALL_IDX_FLAG};
use super::{Machine, RunStatus};
use crate::fault::Fault;
use crate::machine::bus::BusView;
use crate::word::{high, low};
use vstd::prelude::*;

verus! {

/// In 8-bit index mode X and Y have no high byte.
pub open spec fn index_ok(m: Machine) -> bool {
    m.small_idx() ==> m.x <= 0xFF && m.y <= 0xFF
}

/// What one operation may do to the index registers: if it leaves the
/// machine in 8-bit index mode, then X and Y have no high byte, provided
/// that the index width was 16-bit before or that they had none before.
pub open spec fn keeps_index(m: Machine, after: Machine) -> bool {
    after.small_idx() && (!m.small_idx() || index_ok(m)) ==> after.x <= 0xFF && after.y <= 0xFF
}

/// An operation is orderly if it keeps the index registers in order,
/// keeps the stack pointer in page 1 in emulation mode, raises no
/// stack-page fault while the stack pointer is there, and leaves the run
/// status.
pub open spec fn orderly<T>(m: Machine, outcome: (Machine, Result<T, Fault>)) -> bool {
    &&& keeps_index(m, outcome.0)
    &&& m.stack_in_page() ==> outcome.0.stack_in_page() && outcome.1 != Err::<T, Fault>(
        Fault::StackPage,
    )
    &&& outcome.0.run_status == m.run_status
}

/// The same of an operation that cannot fail.
pub open spec fn orderly_change(m: Machine, after: Machine) -> bool {
    orderly(m, (after, Ok::<(), Fault>(())))
}

/// Nothing changed but the bus and, possibly, the program counter.
pub open spec fn same_registers(m: Machine, after: Machine) -> bool {
    after == (Machine { bus: after.bus, pc: after.pc, ..m })
}

/// Nothing changed but the bus and the stack pointer, which is in page 1
/// if it was.
pub open spec fn same_but_stack(m: Machine, after: Machine) -> bool {
    &&& after == (Machine { bus: after.bus, s: after.s, ..m })
    &&& m.stack_in_page() ==> after.stack_in_page()
}

/// Writing any flag but the index width leaves the index width.
pub proof fn lemma_index_flag_frame()
    ensures
        forall|p: Status, f: u8, v: bool|
            is_flag(f) && f != SMALL_IDX_FLAG ==> #[trigger] p.with(f, v).has(SMALL_IDX_FLAG)
                == p.has(SMALL_IDX_FLAG),
{
    assert forall|p: Status, f: u8, v: bool| is_flag(f) && f != SMALL_IDX_FLAG implies #[trigger] p.with(
        f,
        v,
    ).has(SMALL_IDX_FLAG) == p.has(SMALL_IDX_FLAG) by {
        lemma_with_has(p, f, SMALL_IDX_FLAG, v);
    }
}

/// Resolving an operand's location, reading through it and writing
/// through it change nothing but the bus, and raise no stack-page fault.
pub proof fn lemma_operand_access_frame(m: Machine, am: AddressingMode)
    ensures
        same_registers(m, m.address(am).0) && m.address(am).0.pc == m.pc,
        same_registers(m, m.read8(am).0) && m.read8(am).0.pc == m.pc,
        same_registers(m, m.read16(am).0) && m.read16(am).0.pc == m.pc,
        forall|v: u8| same_registers(m, #[trigger] m.write8(am, v).0),
        forall|v: u16| same_registers(m, #[trigger] m.write16(am, v).0),
        m.address(am).1 != Err::<(u8, u16), Fault>(Fault::StackPage),
        m.read8(am).1 != Err::<u8, Fault>(Fault::StackPage),
        m.read16(am).1 != Err::<u16, Fault>(Fault::StackPage),
        forall|v: u8| #[trigger] m.write8(am, v).1 != Err::<(), Fault>(Fault::StackPage),
        forall|v: u16| #[trigger] m.write16(am, v).1 != Err::<(), Fault>(Fault::StackPage),
{
}

/// The stack primitives change nothing but the bus and the stack
/// pointer, which stays in page 1 in emulation mode, and raise no
/// stack-page fault while it is there.
#[verifier::rlimit(50)]
pub proof fn lemma_stack_frame(m: Machine)
    ensures
        forall|v: u8| same_but_stack(m, #[trigger] m.pushb(v).0),
        forall|v: u16| same_but_stack(m, #[trigger] m.pushw(v).0),
        same_but_stack(m, m.popb().0),
        same_but_stack(m, m.popw().0),
        m.stack_in_page() ==> {
            &&& forall|v: u8| #[trigger] m.pushb(v).1 != Err::<(), Fault>(Fault::StackPage)
            &&& forall|v: u16| #[trigger] m.pushw(v).1 != Err::<(), Fault>(Fault::StackPage)
            &&& m.popb().1 != Err::<u8, Fault>(Fault::StackPage)
            &&& m.popw().1 != Err::<u16, Fault>(Fault::StackPage)
        },
{
    assert forall|v: u16| same_but_stack(m, #[trigger] m.pushw(v).0) && (m.stack_in_page()
        ==> m.pushw(v).1 != Err::<(), Fault>(Fault::StackPage)) by {
        let m1 = m.pushb(high(v)).0;
        assert(same_but_stack(m, m1));
        assert(same_but_stack(m1, m1.pushb(low(v)).0));
    }
    let m1 = m.popb().0;
    assert(same_but_stack(m, m1));
    assert(same_but_stack(m1, m1.popb().0));
}

/// The flag instructions, TXS and XBA are orderly.
#[verifier::rlimit(50)]
proof fn lemma_flags_orderly(m: Machine)
    ensures
        orderly_change(m, m.clc()),
        orderly_change(m, m.sec()),
        orderly_change(m, m.cld()),
        orderly_change(m, m.sed()),
        orderly_change(m, m.cli()),
        orderly_change(m, m.sei()),
        orderly_change(m, m.clv()),
        orderly_change(m, m.txs()),
        orderly_change(m, m.xba()),
{
    lemma_index_flag_frame();
}

/// The register transfers and the accumulator shifts are orderly.
#[verifier::rlimit(50)]
proof fn lemma_moves_orderly(m: Machine)
    ensures
        orderly_change(m, m.tax()),
        orderly_change(m, m.txa()),
        orderly_change(m, m.tyx()),
        orderly_change(m, m.asl_a()),
        orderly_change(m, m.lsr_a()),
{
    lemma_index_flag_frame();
}

/// The index increments and decrements are orderly.
#[verifier::rlimit(50)]
proof fn lemma_counts_orderly(m: Machine)
    ensures
        orderly_change(m, m.inx()),
        orderly_change(m, m.iny()),
        orderly_change(m, m.dex()),
        orderly_change(m, m.dey()),
{
    lemma_index_flag_frame();
}

/// XCE is orderly.
#[verifier::rlimit(50)]
proof fn lemma_exchange_orderly(m: Machine)
    ensures
        orderly_change(m, m.xce()),
{
    lemma_index_flag_frame();
}

/// The pushes are orderly.
#[verifier::rlimit(50)]
proof fn lemma_pushes_orderly(m: Machine)
    ensures
        orderly(m, m.pha()),
        orderly(m, m.phx()),
        orderly(m, m.phy()),
{
    lemma_stack_frame(m);
}

/// The pulls are orderly.
#[verifier::rlimit(50)]
proof fn lemma_pulls_orderly(m: Machine)
    ensures
        orderly(m, m.pla()),
        orderly(m, m.plx()),
        orderly(m, m.ply()),
{
    lemma_index_flag_frame();
    lemma_stack_frame(m);
}

/// The returns are orderly.
#[verifier::rlimit(50)]
proof fn lemma_returns_orderly(m: Machine)
    ensures
        orderly(m, m.rts()),
        orderly(m, m.rtl()),
{
    lemma_stack_frame(m);
    lemma_stack_frame(m.popw().0);
}

/// The loads are orderly.
#[verifier::rlimit(50)]
proof fn lemma_loads_orderly(m: Machine, am: AddressingMode)
    ensures
        orderly(m, m.lda(am)),
        orderly(m, m.ldx(am)),
        orderly(m, m.ldy(am)),
{
    lemma_index_flag_frame();
    lemma_operand_access_frame(m, am);
}

/// The stores are orderly.
#[verifier::rlimit(50)]
proof fn lemma_stores_orderly(m: Machine, am: AddressingMode)
    ensures
        orderly(m, m.sta(am)),
        orderly(m, m.stx(am)),
        orderly(m, m.sty(am)),
{
    lemma_index_flag_frame();
    lemma_operand_access_frame(m, am);
}

/// ADC and SBC are orderly.
#[verifier::rlimit(50)]
proof fn lemma_sums_orderly(m: Machine, am: AddressingMode)
    ensures
        orderly(m, m.adc(am)),
        orderly(m, m.sbc(am)),
{
    lemma_index_flag_frame();
    lemma_operand_access_frame(m, am);
}

/// AND, ORA and INC are orderly.
#[verifier::rlimit(50)]
proof fn lemma_logic_orderly(m: Machine, am: AddressingMode)
    ensures
        orderly(m, m.and(am)),
        orderly(m, m.ora(am)),
        orderly(m, m.inc(am)),
{
    lemma_index_flag_frame();
    lemma_operand_access_frame(m, am);
}

/// The comparisons are orderly.
#[verifier::rlimit(50)]
proof fn lemma_compares_orderly(m: Machine, am: AddressingMode)
    ensures
        orderly(m, m.cmp(am)),
        orderly(m, m.cpx(am)),
        orderly(m, m.cpy(am)),
{
    lemma_index_flag_frame();
    lemma_operand_access_frame(m, am);
}

/// The branches are orderly.
#[verifier::rlimit(50)]
proof fn lemma_branches_orderly(m: Machine, am: AddressingMode)
    ensures
        orderly(m, m.bra(am)),
        orderly(m, m.beq(am)),
        orderly(m, m.bmi(am)),
        orderly(m, m.bne(am)),
{
    lemma_index_flag_frame();
    lemma_operand_access_frame(m, am);
}

/// The jumps are orderly.
#[verifier::rlimit(50)]
proof fn lemma_jumps_orderly(m: Machine, am: AddressingMode)
    ensures
        orderly(m, m.jmp(am)),
        orderly(m, m.jml(am)),
{
    lemma_index_flag_frame();
    lemma_operand_access_frame(m, am);
}

/// The calls are orderly.
#[verifier::rlimit(50)]
proof fn lemma_calls_orderly(m: Machine, am: AddressingMode)
    ensures
        orderly(m, m.jsr(am)),
        orderly(m, m.jsl(am)),
{
    lemma_stack_frame(m);
    let m1 = m.pushw(m.pc.wrapping_sub(1)).0;
    lemma_operand_access_frame(m1, am);
    assert(orderly(m, m.jsr(am)));
    let n1 = m.pushb(m.pbr).0;
    lemma_stack_frame(n1);
    let n2 = n1.pushw(n1.pc.wrapping_sub(1)).0;
    lemma_operand_access_frame(n2, am);
    assert(orderly(m, m.jsl(am)));
}

/// REP and SEP are orderly.
#[verifier::rlimit(50)]
proof fn lemma_masks_orderly(m: Machine, am: AddressingMode)
    ensures
        orderly(m, m.rep(am)),
        orderly(m, m.sep(am)),
{
    lemma_index_flag_frame();
    lemma_operand_access_frame(m, am);
}

/// Every instruction without operand is orderly, but that STP and WAI
/// change the run status.
pub proof fn lemma_run_implied_orderly(m: Machine, instruction: Implied)
    ensures
        instruction != Implied::Stp && instruction != Implied::Wai ==> orderly(
            m,
            m.run_implied(instruction),
        ),
        instruction == Implied::Stp ==> m.run_implied(instruction) == (
            Machine { run_status: RunStatus::Stopped, ..m },
            Ok::<(), Fault>(()),
        ),
        instruction == Implied::Wai ==> m.run_implied(instruction) == (
            Machine { run_status: RunStatus::Waiting, ..m },
            Ok::<(), Fault>(()),
        ),
{
    lemma_flags_orderly(m);
    lemma_moves_orderly(m);
    lemma_counts_orderly(m);
    lemma_exchange_orderly(m);
    lemma_pushes_orderly(m);
    lemma_pulls_orderly(m);
    lemma_returns_orderly(m);
}

/// Every instruction with an operand is orderly.
pub proof fn lemma_run_orderly(m: Machine, operation: Operation, am: AddressingMode)
    ensures
        orderly(m, m.run(operation, am)),
{
    lemma_loads_orderly(m, am);
    lemma_stores_orderly(m, am);
    lemma_sums_orderly(m, am);
    lemma_logic_orderly(m, am);
    lemma_compares_orderly(m, am);
    lemma_branches_orderly(m, am);
    lemma_jumps_orderly(m, am);
    lemma_calls_orderly(m, am);
    lemma_masks_orderly(m, am);
}

/// Decoding an operand changes nothing but the bus and the program
/// counter, and raises no stack-page fault.
pub proof fn lemma_operand_frame(m: Machine, decoder: Decoder)
    ensures
        same_registers(m, m.operand(decoder).0),
        m.operand(decoder).1 != Err::<AddressingMode, Fault>(Fault::StackPage),
{
}

/// What holds of every step of every machine.
///
/// The index registers: after a step that ends in 8-bit index mode, X and
/// Y have no high byte, if the step began in 16-bit index mode or they
/// had none before it. So a change of the index width from 16 to 8 bits
/// shows in X and Y at once, and the index registers of a machine that
/// started from reset never have a high byte in 8-bit index mode.
///
/// The stack: if the stack pointer was in page 1 or the machine in native
/// mode, the same holds after the step, and the step raised no stack-page
/// fault.
///
/// The run status: it changes only from running, to stopped by STP and to
/// waiting by WAI.
#[verifier::rlimit(50)]
pub proof fn lemma_step_invariants(m: Machine)
    ensures
        keeps_index(m, m.step().0),
        m.step().0.small_idx() && (!m.small_idx() || index_ok(m)) ==> m.step().0.x & 0xFF00 == 0
            && m.step().0.y & 0xFF00 == 0,
        m.stack_in_page() ==> m.step().0.stack_in_page() && m.step().1 != Err::<RunStatus, Fault>(
            Fault::StackPage,
        ),
        m.step().0.run_status == if m.run_status == RunStatus::Running && m.fetchb().1 == Ok::<
            u8,
            Fault,
        >(0xDB) {
            RunStatus::Stopped
        } else if m.run_status == RunStatus::Running && m.fetchb().1 == Ok::<u8, Fault>(0xCB) {
            RunStatus::Waiting
        } else {
            m.run_status
        },
{
    if m.run_status == RunStatus::Running {
        let (m1, r1) = m.fetchb();
        assert(same_registers(m, m1));
        if let Ok(opcode) = r1 {
            match decode(opcode) {
                None => {},
                Some(Entry::Implied(i)) => {
                    lemma_run_implied_orderly(m1, i);
                    assert(i == Implied::Stp <==> opcode == 0xDB);
                    assert(i == Implied::Wai <==> opcode == 0xCB);
                },
                Some(Entry::Operand(op, d)) => {
                    lemma_operand_frame(m1, d);
                    let (m2, r2) = m1.operand(d);
                    if let Ok(am) = r2 {
                        lemma_run_orderly(m2, op, am);
                    }
                },
            }
        }
    }
    let after = m.step().0;
    if after.x <= 0xFF {
        lemma_high_bits_clear(after.x);
    }
    if after.y <= 0xFF {
        lemma_high_bits_clear(after.y);
    }
}

/// The machine at reset has its index registers and its stack pointer in
/// order, and runs.
pub proof fn lemma_reset_in_order(bus: BusView)
    ensures
        index_ok(Machine::reset(bus)),
        Machine::reset(bus).stack_in_page(),
        Machine::reset(bus).run_status == RunStatus::Running,
{
    assert(0x34u8 & 0x10 != 0) by (bit_vector);
}

/// The machine after `n` steps from `m`. A step that faults leaves the
/// machine as the fault left it.
pub open spec fn after_steps(m: Machine, n: nat) -> Machine
    decreases n,
{
    if n == 0 {
        m
    } else {
        after_steps(m, (n - 1) as nat).step().0
    }
}

/// Every machine that can be reached from reset, over any bus and after
/// any number of steps, has no high byte in X and Y in 8-bit index mode
/// and its stack pointer in page 1 in emulation mode; and its next step
/// raises no stack-page fault.
pub proof fn lemma_reachable_in_order(bus: BusView, n: nat)
    ensures
        index_ok(after_steps(Machine::reset(bus), n)),
        after_steps(Machine::reset(bus), n).small_idx() ==> after_steps(Machine::reset(bus), n).x
            & 0xFF00 == 0 && after_steps(Machine::reset(bus), n).y & 0xFF00 == 0,
        after_steps(Machine::reset(bus), n).stack_in_page(),
        after_steps(Machine::reset(bus), n).step().1 != Err::<RunStatus, Fault>(Fault::StackPage),
    decreases n,
{
    let start = Machine::reset(bus);
    if n == 0 {
        lemma_reset_in_order(bus);
    } else {
        lemma_reachable_in_order(bus, (n - 1) as nat);
        lemma_step_invariants(after_steps(start, (n - 1) as nat));
    }
    let m = after_steps(start, n);
    lemma_step_invariants(m);
    if m.small_idx() {
        lemma_high_bits_clear(m.x);
        lemma_high_bits_clear(m.y);
    }
}

/// Once a core has stopped or waits, no number of steps changes it.
pub proof fn lemma_halted_for_good(m: Machine, n: nat)
    requires
        m.run_status != RunStatus::Running,
    ensures
        after_steps(m, n) == m,
    decreases n,
{
    if n > 0 {
        lemma_halted_for_good(m, (n - 1) as nat);
    }
}

} // verus!
