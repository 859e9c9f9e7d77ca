use emulator::fault::Fault;
use emulator::machine::bus::{Bus, FLASH_ROM_SIZE};
use emulator::machine::cpu::addressing::AddressingMode;
use emulator::machine::cpu::decode::{lookup, Decoder, Entry, Implied, Operation};
use emulator::machine::cpu::status::Status;
use emulator::machine::cpu::{RunStatus, W65C816};

/// A processor at reset over a flash image that holds `program` at
/// `00:8000` and points the reset vector there.
fn machine(program: &[u8]) -> W65C816 {
    let mut image = vec![0u8; FLASH_ROM_SIZE];
    image[..program.len()].copy_from_slice(program);
    image[0x7FFC] = 0x00;
    image[0x7FFD] = 0x80;
    W65C816::new(Bus::new(image))
}

/// The same, already switched to native mode with 16-bit registers.
fn native16(program: &[u8]) -> W65C816 {
    let mut cpu = machine(program);
    cpu.emulation = false;
    cpu.p = Status(0x04);
    cpu.s = 0x01FF;
    cpu
}

#[test]
fn reset_state() {
    let mut image = vec![0u8; FLASH_ROM_SIZE];
    image[0x7FFC] = 0x34;
    image[0x7FFD] = 0x12;
    let cpu = W65C816::new(Bus::new(image));
    assert_eq!(cpu.pc, 0x1234);
    assert_eq!(cpu.a, 0);
    assert_eq!(cpu.x, 0);
    assert_eq!(cpu.y, 0);
    assert_eq!(cpu.s, 0x0100);
    assert_eq!(cpu.d, 0);
    assert_eq!(cpu.dbr, 0);
    assert_eq!(cpu.pbr, 0);
    assert!(cpu.emulation);
    assert_eq!(cpu.p, Status(0x34));
    assert_eq!(cpu.run_status, RunStatus::Running);
    assert_eq!(cpu.bus.cycles(), 2);
}

#[test]
fn load_immediate_then_stop() {
    let mut cpu = machine(&[0xA9, 0x42, 0xDB]);
    assert_eq!(cpu.pc, 0x8000);
    assert_eq!(cpu.instruction(), Ok(RunStatus::Running));
    assert_eq!(cpu.a, 0x42);
    assert!(!cpu.p.zero());
    assert!(!cpu.p.negative());
    assert_eq!(cpu.pc, 0x8002);
    assert_eq!(cpu.instruction(), Ok(RunStatus::Stopped));
    assert_eq!(cpu.run_status, RunStatus::Stopped);
    let pc = cpu.pc;
    let cycles = cpu.bus.cycles();
    let p = cpu.p;
    assert_eq!(cpu.instruction(), Ok(RunStatus::Stopped));
    assert_eq!(cpu.pc, pc);
    assert_eq!(cpu.bus.cycles(), cycles);
    assert_eq!(cpu.p, p);
    assert_eq!(cpu.a, 0x42);
    assert_eq!(cpu.s, 0x0100);
}

#[test]
fn wait_is_terminal() {
    let mut cpu = machine(&[0xCB, 0xA9, 0x42]);
    assert_eq!(cpu.instruction(), Ok(RunStatus::Waiting));
    assert_eq!(cpu.instruction(), Ok(RunStatus::Waiting));
    assert_eq!(cpu.a, 0);
    assert_eq!(cpu.pc, 0x8001);
}

#[test]
fn unknown_opcode_is_reported_with_its_place() {
    let mut cpu = machine(&[0xEA, 0x00]);
    cpu.pc = 0x8001;
    assert_eq!(
        cpu.instruction(),
        Err(Fault::UnimplementedOpcode { opcode: 0x00, bank: 0, pc: 0x8001 })
    );
    assert_eq!(cpu.pc, 0x8002);
}

#[test]
fn fetch_wraps_within_the_program_bank() {
    let mut image = vec![0u8; FLASH_ROM_SIZE];
    image[0x7FFF] = 0x18;
    image[0x7FFC] = 0xFF;
    image[0x7FFD] = 0xFF;
    let mut cpu = W65C816::new(Bus::new(image));
    assert_eq!(cpu.pc, 0xFFFF);
    cpu.p.set_carry(true);
    assert_eq!(cpu.instruction(), Ok(RunStatus::Running));
    assert_eq!(cpu.pc, 0x0000);
    assert_eq!(cpu.pbr, 0);
    assert!(!cpu.p.carry());
}

#[test]
fn fetch_from_unmapped_memory_faults() {
    let mut cpu = machine(&[]);
    cpu.pbr = 0x10;
    cpu.pc = 0x0000;
    assert_eq!(cpu.instruction(), Err(Fault::BusRead { bank: 0x10, addr: 0x0000 }));
    assert_eq!(cpu.pc, 0x0000);
}

#[test]
fn opcode_table_entries() {
    assert_eq!(lookup(0xA9), Some(Entry::Operand(Operation::Lda, Decoder::ImmediateAcc)));
    assert_eq!(lookup(0xE9), Some(Entry::Operand(Operation::Sbc, Decoder::ImmediateAcc)));
    assert_eq!(lookup(0x69), Some(Entry::Operand(Operation::Adc, Decoder::ImmediateAcc)));
    assert_eq!(lookup(0x97), Some(Entry::Operand(Operation::Sta, Decoder::DirectIndirectLongIdx)));
    assert_eq!(lookup(0xBF), Some(Entry::Operand(Operation::Lda, Decoder::AbsoluteLongIndexedX)));
    assert_eq!(lookup(0x82), Some(Entry::Operand(Operation::Bra, Decoder::RelativeLong)));
    assert_eq!(lookup(0xC2), Some(Entry::Operand(Operation::Rep, Decoder::Immediate8)));
    assert_eq!(lookup(0xE0), Some(Entry::Operand(Operation::Cpx, Decoder::ImmediateIndex)));
    assert_eq!(lookup(0xFB), Some(Entry::Implied(Implied::Xce)));
    assert_eq!(lookup(0xDB), Some(Entry::Implied(Implied::Stp)));
    assert_eq!(lookup(0x60), Some(Entry::Implied(Implied::Rts)));
    assert_eq!(lookup(0x00), None);
    assert_eq!(lookup(0xEA), None);
    assert_eq!(lookup(0xFF), None);
    let known = (0..=255u8).filter(|op| lookup(*op).is_some()).count();
    assert_eq!(known, 73);
}

#[test]
fn absolute_indexed_x_resolves_in_the_data_bank() {
    let mut cpu = machine(&[]);
    cpu.dbr = 0x01;
    cpu.x = 0x0010;
    assert_eq!(AddressingMode::AbsIndexedX(0x2000).address(&mut cpu), Ok((0x01, 0x2010)));
}

#[test]
fn absolute_indexed_uses_the_index_at_its_width() {
    let mut cpu = machine(&[]);
    cpu.dbr = 0x02;
    cpu.x = 0x1234;
    cpu.y = 0x0101;
    assert_eq!(AddressingMode::AbsIndexedX(0x2000).address(&mut cpu), Ok((0x02, 0x2034)));
    assert_eq!(AddressingMode::AbsIndexedY(0x2000).address(&mut cpu), Ok((0x02, 0x2001)));
    cpu.p.set_small_idx(false);
    assert_eq!(AddressingMode::AbsIndexedX(0x2000).address(&mut cpu), Ok((0x02, 0x3234)));
    assert_eq!(AddressingMode::AbsIndexedY(0xFFFF).address(&mut cpu), Ok((0x02, 0x0100)));
}

#[test]
fn direct_and_absolute_shapes() {
    let mut cpu = machine(&[]);
    cpu.d = 0xFFF0;
    cpu.dbr = 0x05;
    assert_eq!(AddressingMode::Direct(0x20).address(&mut cpu), Ok((0x00, 0x0010)));
    assert_eq!(AddressingMode::Absolute(0x1234).address(&mut cpu), Ok((0x05, 0x1234)));
    assert_eq!(AddressingMode::AbsoluteLong(0x7E, 0x4321).address(&mut cpu), Ok((0x7E, 0x4321)));
    assert_eq!(cpu.bus.cycles(), 2);
}

#[test]
fn relative_shapes_start_from_the_advanced_program_counter() {
    let mut cpu = machine(&[]);
    cpu.pbr = 0x03;
    cpu.pc = 0x8002;
    assert_eq!(AddressingMode::Rel(-2).address(&mut cpu), Ok((0x03, 0x8000)));
    assert_eq!(AddressingMode::Rel(127).address(&mut cpu), Ok((0x03, 0x8081)));
    assert_eq!(AddressingMode::RelLong(-0x8000).address(&mut cpu), Ok((0x03, 0x0002)));
    assert_eq!(AddressingMode::RelLong(0x7FFF).address(&mut cpu), Ok((0x03, 0x0001)));
}

#[test]
fn long_indexed_sums_over_24_bits() {
    let mut cpu = native16(&[]);
    cpu.x = 0x0001;
    assert_eq!(AddressingMode::AbsLongIndexedX(0x01, 0xFFFF).address(&mut cpu), Ok((0x02, 0x0000)));
    cpu.x = 0xFFFF;
    assert_eq!(AddressingMode::AbsLongIndexedX(0x20, 0x0002).address(&mut cpu), Ok((0x21, 0x0001)));
    assert_eq!(
        AddressingMode::AbsLongIndexedX(0xFF, 0x0001).address(&mut cpu),
        Err(Fault::AddressRange)
    );
    cpu.x = 0;
    assert_eq!(AddressingMode::AbsLongIndexedX(0xFF, 0xFFFF).address(&mut cpu), Ok((0xFF, 0xFFFF)));
}

#[test]
fn direct_indirect_long_reads_a_three_byte_pointer() {
    let mut cpu = native16(&[]);
    cpu.d = 0x0010;
    cpu.bus.write(0, 0x0014, 0x56);
    cpu.bus.write(0, 0x0015, 0x34);
    cpu.bus.write(0, 0x0016, 0x12);
    let before = cpu.bus.cycles();
    assert_eq!(AddressingMode::DirectIndirectLong(0x04).address(&mut cpu), Ok((0x12, 0x3456)));
    assert_eq!(cpu.bus.cycles(), before + 3);
    cpu.y = 0xD000;
    assert_eq!(AddressingMode::DirectIndirectLongIdx(0x04).address(&mut cpu), Ok((0x13, 0x0456)));
}

#[test]
fn direct_indirect_long_indexed_overflow_is_a_fault() {
    let mut cpu = native16(&[]);
    cpu.bus.write(0, 0x0000, 0xFF);
    cpu.bus.write(0, 0x0001, 0xFF);
    cpu.bus.write(0, 0x0002, 0xFF);
    cpu.y = 0x0001;
    assert_eq!(
        AddressingMode::DirectIndirectLongIdx(0x00).address(&mut cpu),
        Err(Fault::AddressRange)
    );
    cpu.y = 0x0000;
    assert_eq!(AddressingMode::DirectIndirectLongIdx(0x00).address(&mut cpu), Ok((0xFF, 0xFFFF)));
}

#[test]
fn pointer_in_unmapped_memory_is_a_bus_fault() {
    let mut cpu = machine(&[]);
    cpu.d = 0x7EFF;
    assert_eq!(
        AddressingMode::DirectIndirectLong(0x00).address(&mut cpu),
        Err(Fault::BusRead { bank: 0, addr: 0x7F00 })
    );
}

#[test]
fn shapes_without_resolver_are_a_fault() {
    let mut cpu = machine(&[]);
    cpu.pbr = 0x02;
    cpu.pc = 0x9000;
    let fault = Err(Fault::UnimplementedAddressingMode { bank: 0x02, pc: 0x9000 });
    assert_eq!(AddressingMode::StackRel(1).address(&mut cpu), fault);
    assert_eq!(AddressingMode::DirectIndexedX(1).address(&mut cpu), fault);
    assert_eq!(AddressingMode::DirectIndexedY(1).address(&mut cpu), fault);
    assert_eq!(AddressingMode::DirectIndexedIndirect(1).address(&mut cpu), fault);
    assert_eq!(AddressingMode::DirectIndirect(1).address(&mut cpu), fault);
    assert_eq!(AddressingMode::DirectIndirectIndexed(1).address(&mut cpu), fault);
    assert_eq!(AddressingMode::AbsIndexedIndirect(1).address(&mut cpu), fault);
    assert_eq!(AddressingMode::AbsoluteIndirect(1).address(&mut cpu), fault);
    assert_eq!(AddressingMode::AbsoluteIndirectLong(1).address(&mut cpu), fault);
    assert_eq!(AddressingMode::Immediate(1).address(&mut cpu), fault);
    assert_eq!(AddressingMode::Immediate8(1).address(&mut cpu), fault);
    assert_eq!(AddressingMode::Immediate8(1).storeb(&mut cpu, 0), Err(fault.unwrap_err()));
}

#[test]
fn immediates_bypass_the_bus() {
    let mut cpu = machine(&[]);
    let before = cpu.bus.cycles();
    assert_eq!(AddressingMode::Immediate8(0x5A).loadb(&mut cpu), Ok(0x5A));
    assert_eq!(AddressingMode::Immediate(0xBEEF).loadw(&mut cpu), Ok(0xBEEF));
    assert_eq!(cpu.bus.cycles(), before);
}

#[test]
fn mismatched_immediate_width_is_a_fault() {
    let mut cpu = machine(&[]);
    assert_eq!(AddressingMode::Immediate(0x1234).loadb(&mut cpu), Err(Fault::WidthMismatch));
    assert_eq!(AddressingMode::Immediate8(0x12).loadw(&mut cpu), Err(Fault::WidthMismatch));
}

#[test]
fn store_and_load_through_a_shape() {
    let mut cpu = machine(&[]);
    cpu.dbr = 0x20;
    assert_eq!(AddressingMode::Absolute(0x4000).storew(&mut cpu, 0xCAFE), Ok(()));
    assert_eq!(AddressingMode::Absolute(0x4000).loadb(&mut cpu), Ok(0xFE));
    assert_eq!(AddressingMode::Absolute(0x4001).loadb(&mut cpu), Ok(0xCA));
    assert_eq!(AddressingMode::Absolute(0x4000).loadw(&mut cpu), Ok(0xCAFE));
    assert_eq!(AddressingMode::Absolute(0x4002).storeb(&mut cpu, 0x77), Ok(()));
    assert_eq!(AddressingMode::AbsoluteLong(0x20, 0x4001).loadw(&mut cpu), Ok(0x77CA));
}

#[test]
fn word_store_at_the_end_of_a_bank_carries_into_the_next() {
    let mut cpu = machine(&[]);
    assert_eq!(cpu.storew(0x20, 0xFFFF, 0xABCD), Ok(()));
    assert_eq!(cpu.loadb(0x20, 0xFFFF), Ok(0xCD));
    assert_eq!(cpu.loadb(0x21, 0x0000), Ok(0xAB));
}

#[test]
fn word_load_at_the_end_of_a_bank_is_a_fault() {
    let mut cpu = machine(&[]);
    let before = cpu.bus.cycles();
    assert_eq!(cpu.loadw(0x20, 0xFFFF), Err(Fault::BankBoundaryLoad { bank: 0x20 }));
    assert_eq!(cpu.bus.cycles(), before);
    assert_eq!(cpu.loadw(0x20, 0xFFFE), Ok(0x0000));
}

#[test]
fn writes_to_flash_and_unmapped_memory_are_faults() {
    let mut cpu = machine(&[]);
    assert_eq!(cpu.storeb(0x00, 0x8000, 1), Err(Fault::BusWrite { bank: 0x00, addr: 0x8000 }));
    assert_eq!(cpu.storeb(0x00, 0x7F00, 1), Err(Fault::BusWrite { bank: 0x00, addr: 0x7F00 }));
    assert_eq!(cpu.storeb(0x40, 0x0000, 1), Err(Fault::BusWrite { bank: 0x40, addr: 0x0000 }));
    assert_eq!(cpu.loadb(0x10, 0x0000), Err(Fault::BusRead { bank: 0x10, addr: 0x0000 }));
    assert_eq!(cpu.storew(0x00, 0x7EFF, 0x1234), Err(Fault::BusWrite { bank: 0x00, addr: 0x7F00 }));
    assert_eq!(cpu.loadb(0x00, 0x7EFF), Ok(0x34));
}

#[test]
fn push_and_pop_in_emulation_mode_stay_in_page_one() {
    let mut cpu = machine(&[]);
    assert_eq!(cpu.s, 0x0100);
    assert_eq!(cpu.pushb(0xAB), Ok(()));
    assert_eq!(cpu.s, 0x01FF);
    assert_eq!(cpu.loadb(0, 0x0100), Ok(0xAB));
    assert_eq!(cpu.popb(), Ok(0xAB));
    assert_eq!(cpu.s, 0x0100);
}

#[test]
fn push_and_pop_in_native_mode_use_the_whole_pointer() {
    let mut cpu = native16(&[]);
    cpu.s = 0x0200;
    assert_eq!(cpu.pushw(0x1234), Ok(()));
    assert_eq!(cpu.s, 0x01FE);
    assert_eq!(cpu.loadb(0, 0x0200), Ok(0x12));
    assert_eq!(cpu.loadb(0, 0x01FF), Ok(0x34));
    assert_eq!(cpu.popw(), Ok(0x1234));
    assert_eq!(cpu.s, 0x0200);
    cpu.s = 0x0000;
    assert_eq!(cpu.pushb(0x01), Ok(()));
    assert_eq!(cpu.s, 0xFFFF);
}

#[test]
fn stack_outside_page_one_in_emulation_mode_is_a_fault() {
    let mut cpu = machine(&[]);
    cpu.s = 0x0200;
    assert_eq!(cpu.pushb(0x01), Err(Fault::StackPage));
    assert_eq!(cpu.popb(), Err(Fault::StackPage));
    assert_eq!(cpu.s, 0x0200);
}

#[test]
fn pha_then_pla_restores_the_accumulator_at_eight_bits() {
    let mut cpu = machine(&[0x48, 0xA9, 0x00, 0x68]);
    cpu.a = 0x12F3;
    let s = cpu.s;
    assert_eq!(cpu.instruction(), Ok(RunStatus::Running));
    assert_eq!(cpu.s, 0x01FF);
    assert_eq!(cpu.instruction(), Ok(RunStatus::Running));
    assert_eq!(cpu.a, 0x1200);
    assert!(cpu.p.zero());
    assert_eq!(cpu.instruction(), Ok(RunStatus::Running));
    assert_eq!(cpu.a, 0x12F3);
    assert_eq!(cpu.s, s);
    assert!(cpu.p.negative());
    assert!(!cpu.p.zero());
}

#[test]
fn pha_then_pla_restores_the_accumulator_at_sixteen_bits() {
    let mut cpu = native16(&[0x48, 0x68]);
    cpu.a = 0xBEEF;
    let s = cpu.s;
    assert_eq!(cpu.instruction(), Ok(RunStatus::Running));
    assert_eq!(cpu.s, s - 2);
    cpu.a = 0;
    assert_eq!(cpu.instruction(), Ok(RunStatus::Running));
    assert_eq!(cpu.a, 0xBEEF);
    assert_eq!(cpu.s, s);
    assert!(cpu.p.negative());
}

#[test]
fn index_pushes_and_pulls() {
    let mut cpu = native16(&[0xDA, 0x5A, 0xFA, 0x7A]);
    cpu.x = 0x1111;
    cpu.y = 0x2222;
    for _ in 0..4 {
        assert_eq!(cpu.instruction(), Ok(RunStatus::Running));
    }
    assert_eq!(cpu.x, 0x2222);
    assert_eq!(cpu.y, 0x1111);
    assert_eq!(cpu.s, 0x01FF);
}

#[test]
fn jsr_then_rts_returns_after_the_call() {
    let mut cpu = machine(&[0x20, 0x10, 0x80, 0xDB]);
    cpu.bus = {
        let mut image = vec![0u8; FLASH_ROM_SIZE];
        image[..4].copy_from_slice(&[0x20, 0x10, 0x80, 0xDB]);
        image[0x10] = 0x60;
        Bus::new(image)
    };
    let s = cpu.s;
    assert_eq!(cpu.instruction(), Ok(RunStatus::Running));
    assert_eq!(cpu.pc, 0x8010);
    assert_eq!(cpu.loadb(0, 0x0100), Ok(0x80));
    assert_eq!(cpu.loadb(0, 0x01FF), Ok(0x02));
    assert_eq!(cpu.instruction(), Ok(RunStatus::Running));
    assert_eq!(cpu.pc, 0x8003);
    assert_eq!(cpu.s, s);
    assert_eq!(cpu.instruction(), Ok(RunStatus::Stopped));
}

#[test]
fn jsl_then_rtl_returns_across_banks() {
    let mut image = vec![0u8; FLASH_ROM_SIZE];
    image[..4].copy_from_slice(&[0x22, 0x00, 0x90, 0x01]);
    image[0x8000 + 0x1000] = 0x6B;
    image[0x7FFC] = 0x00;
    image[0x7FFD] = 0x80;
    let mut cpu = W65C816::new(Bus::new(image));
    assert_eq!(cpu.instruction(), Ok(RunStatus::Running));
    assert_eq!((cpu.pbr, cpu.pc), (0x01, 0x9000));
    assert_eq!(cpu.s, 0x01FD);
    assert_eq!(cpu.instruction(), Ok(RunStatus::Running));
    assert_eq!((cpu.pbr, cpu.pc), (0x00, 0x8004));
    assert_eq!(cpu.s, 0x0100);
}

#[test]
fn jumps() {
    let mut cpu = machine(&[0x4C, 0x34, 0x92]);
    cpu.dbr = 0x07;
    assert_eq!(cpu.instruction(), Ok(RunStatus::Running));
    assert_eq!((cpu.pbr, cpu.pc), (0x00, 0x9234));
    let mut cpu = machine(&[0x5C, 0x34, 0x92, 0x05]);
    assert_eq!(cpu.instruction(), Ok(RunStatus::Running));
    assert_eq!((cpu.pbr, cpu.pc), (0x05, 0x9234));
}

#[test]
fn branches_follow_their_flag() {
    let mut cpu = machine(&[0xF0, 0x10]);
    cpu.p.set_zero(true);
    assert_eq!(cpu.instruction(), Ok(RunStatus::Running));
    assert_eq!(cpu.pc, 0x8012);
    let mut cpu = machine(&[0xF0, 0x10]);
    assert_eq!(cpu.instruction(), Ok(RunStatus::Running));
    assert_eq!(cpu.pc, 0x8002);
    let mut cpu = machine(&[0xD0, 0xFE]);
    assert_eq!(cpu.instruction(), Ok(RunStatus::Running));
    assert_eq!(cpu.pc, 0x8000);
    let mut cpu = machine(&[0x30, 0x7F]);
    cpu.p.set_negative(true);
    assert_eq!(cpu.instruction(), Ok(RunStatus::Running));
    assert_eq!(cpu.pc, 0x8081);
    let mut cpu = machine(&[0x80, 0x80]);
    assert_eq!(cpu.instruction(), Ok(RunStatus::Running));
    assert_eq!(cpu.pc, 0x7F82);
    let mut cpu = machine(&[0x82, 0x00, 0x10]);
    assert_eq!(cpu.instruction(), Ok(RunStatus::Running));
    assert_eq!(cpu.pc, 0x9003);
}

#[test]
fn xce_from_native_with_carry_enters_emulation() {
    let mut cpu = native16(&[0xFB]);
    cpu.p.set_carry(true);
    cpu.x = 0x1234;
    cpu.y = 0xABCD;
    cpu.s = 0x2345;
    cpu.a = 0x5678;
    assert_eq!(cpu.instruction(), Ok(RunStatus::Running));
    assert!(cpu.emulation);
    assert!(!cpu.p.carry());
    assert_eq!(cpu.x, 0x0034);
    assert_eq!(cpu.y, 0x00CD);
    assert_eq!(cpu.s, 0x0145);
    assert_eq!(cpu.a, 0x5678);
    assert!(cpu.p.small_acc());
    assert!(cpu.p.small_idx());
}

#[test]
fn xce_from_emulation_without_carry_enters_native() {
    let mut cpu = machine(&[0x18, 0xFB, 0xFB]);
    assert_eq!(cpu.instruction(), Ok(RunStatus::Running));
    assert_eq!(cpu.instruction(), Ok(RunStatus::Running));
    assert!(!cpu.emulation);
    assert!(cpu.p.carry());
    assert!(cpu.p.small_acc());
    assert!(cpu.p.small_idx());
    assert_eq!(cpu.instruction(), Ok(RunStatus::Running));
    assert!(cpu.emulation);
    assert!(!cpu.p.carry());
}

#[test]
fn sep_truncates_the_index_registers_at_once() {
    let mut cpu = native16(&[0xE2, 0x10]);
    cpu.x = 0x1234;
    cpu.y = 0xFFFF;
    assert_eq!(cpu.instruction(), Ok(RunStatus::Running));
    assert!(cpu.p.small_idx());
    assert_eq!(cpu.x & 0xFF00, 0);
    assert_eq!(cpu.y & 0xFF00, 0);
    assert_eq!(cpu.x, 0x0034);
    assert_eq!(cpu.y, 0x00FF);
}

#[test]
fn rep_and_sep_apply_their_mask() {
    let mut cpu = machine(&[0xC2, 0x30, 0xE2, 0x21, 0xC2, 0xFF]);
    cpu.a = 0xABCD;
    assert_eq!(cpu.instruction(), Ok(RunStatus::Running));
    assert_eq!(cpu.p, Status(0x04));
    assert_eq!(cpu.instruction(), Ok(RunStatus::Running));
    assert_eq!(cpu.p, Status(0x25));
    assert_eq!(cpu.a, 0xABCD);
    assert_eq!(cpu.instruction(), Ok(RunStatus::Running));
    assert_eq!(cpu.p, Status(0x00));
}

#[test]
fn set_p_keeps_registers_when_the_width_does_not_narrow() {
    let mut cpu = native16(&[]);
    cpu.x = 0x1234;
    cpu.y = 0x5678;
    cpu.set_p(0x20);
    assert_eq!((cpu.x, cpu.y), (0x1234, 0x5678));
    cpu.set_p(0x10);
    assert_eq!((cpu.x, cpu.y), (0x0034, 0x0078));
    cpu.x = 0x0FFF;
    cpu.set_p(0x30);
    assert_eq!(cpu.x, 0x0FFF);
}

#[test]
fn flag_instructions() {
    let mut cpu = machine(&[0x38, 0xF8, 0x58, 0x18, 0xD8, 0x78, 0xB8]);
    assert_eq!(cpu.instruction(), Ok(RunStatus::Running));
    assert_eq!(cpu.p, Status(0x35));
    assert_eq!(cpu.instruction(), Ok(RunStatus::Running));
    assert_eq!(cpu.p, Status(0x3D));
    assert_eq!(cpu.instruction(), Ok(RunStatus::Running));
    assert_eq!(cpu.p, Status(0x39));
    assert_eq!(cpu.instruction(), Ok(RunStatus::Running));
    assert_eq!(cpu.p, Status(0x38));
    assert_eq!(cpu.instruction(), Ok(RunStatus::Running));
    assert_eq!(cpu.p, Status(0x30));
    assert_eq!(cpu.instruction(), Ok(RunStatus::Running));
    assert_eq!(cpu.p, Status(0x34));
    cpu.p.set_overflow(true);
    assert_eq!(cpu.instruction(), Ok(RunStatus::Running));
    assert_eq!(cpu.p, Status(0x34));
}

#[test]
fn loads_at_both_widths() {
    let mut cpu = machine(&[0xA9, 0x80, 0xA2, 0x00, 0xA0, 0x7F]);
    cpu.a = 0x1200;
    cpu.x = 0x00FF;
    assert_eq!(cpu.instruction(), Ok(RunStatus::Running));
    assert_eq!(cpu.a, 0x1280);
    assert!(cpu.p.negative() && !cpu.p.zero());
    assert_eq!(cpu.instruction(), Ok(RunStatus::Running));
    assert_eq!(cpu.x, 0x0000);
    assert!(cpu.p.zero() && !cpu.p.negative());
    assert_eq!(cpu.instruction(), Ok(RunStatus::Running));
    assert_eq!(cpu.y, 0x007F);
    let mut cpu = native16(&[0xA9, 0x34, 0x12, 0xA2, 0x00, 0x80, 0xA0, 0x00, 0x00]);
    assert_eq!(cpu.instruction(), Ok(RunStatus::Running));
    assert_eq!(cpu.a, 0x1234);
    assert_eq!(cpu.instruction(), Ok(RunStatus::Running));
    assert_eq!(cpu.x, 0x8000);
    assert!(cpu.p.negative());
    assert_eq!(cpu.instruction(), Ok(RunStatus::Running));
    assert_eq!(cpu.y, 0x0000);
    assert!(cpu.p.zero());
    assert_eq!(cpu.pc, 0x8009);
}

#[test]
fn loads_from_memory_shapes() {
    let mut cpu = machine(&[
        0xA5, 0x10, 0xAD, 0x00, 0x02, 0xBD, 0x00, 0x02, 0xA6, 0x10, 0xA4, 0x10, 0xAE, 0x00, 0x02,
    ]);
    cpu.bus.write(0, 0x0010, 0x11);
    cpu.bus.write(0, 0x0200, 0x22);
    cpu.bus.write(0, 0x0203, 0x33);
    cpu.x = 3;
    assert_eq!(cpu.instruction(), Ok(RunStatus::Running));
    assert_eq!(cpu.a, 0x0011);
    assert_eq!(cpu.instruction(), Ok(RunStatus::Running));
    assert_eq!(cpu.a, 0x0022);
    assert_eq!(cpu.instruction(), Ok(RunStatus::Running));
    assert_eq!(cpu.a, 0x0033);
    assert_eq!(cpu.instruction(), Ok(RunStatus::Running));
    assert_eq!(cpu.x, 0x0011);
    assert_eq!(cpu.instruction(), Ok(RunStatus::Running));
    assert_eq!(cpu.y, 0x0011);
    assert_eq!(cpu.instruction(), Ok(RunStatus::Running));
    assert_eq!(cpu.x, 0x0022);
}

#[test]
fn long_loads_and_stores() {
    let mut cpu = machine(&[0xBF, 0x00, 0x10, 0x20, 0x97, 0x40, 0xA7, 0x40, 0xB7, 0x40]);
    cpu.bus.write(0x20, 0x1005, 0x99);
    cpu.bus.write(0, 0x0040, 0x00);
    cpu.bus.write(0, 0x0041, 0x30);
    cpu.bus.write(0, 0x0042, 0x21);
    cpu.x = 5;
    cpu.y = 2;
    assert_eq!(cpu.instruction(), Ok(RunStatus::Running));
    assert_eq!(cpu.a, 0x0099);
    assert_eq!(cpu.instruction(), Ok(RunStatus::Running));
    assert_eq!(cpu.loadb(0x21, 0x3002), Ok(0x99));
    cpu.bus.write(0x21, 0x3000, 0x55);
    assert_eq!(cpu.instruction(), Ok(RunStatus::Running));
    assert_eq!(cpu.a, 0x0055);
    assert_eq!(cpu.instruction(), Ok(RunStatus::Running));
    assert_eq!(cpu.a, 0x0099);
}

#[test]
fn stores_at_both_widths() {
    let mut cpu = machine(&[
        0x85, 0x10, 0x8D, 0x00, 0x02, 0x9D, 0x00, 0x02, 0x99, 0x00, 0x02, 0x86, 0x20, 0x8E, 0x00,
        0x03, 0x84, 0x21, 0x8C, 0x01, 0x03,
    ]);
    cpu.a = 0x12AB;
    cpu.x = 0x0004;
    cpu.y = 0x0008;
    for _ in 0..8 {
        assert_eq!(cpu.instruction(), Ok(RunStatus::Running));
    }
    assert_eq!(cpu.loadb(0, 0x0010), Ok(0xAB));
    assert_eq!(cpu.loadb(0, 0x0011), Ok(0x00));
    assert_eq!(cpu.loadb(0, 0x0200), Ok(0xAB));
    assert_eq!(cpu.loadb(0, 0x0204), Ok(0xAB));
    assert_eq!(cpu.loadb(0, 0x0208), Ok(0xAB));
    assert_eq!(cpu.loadb(0, 0x0020), Ok(0x04));
    assert_eq!(cpu.loadb(0, 0x0300), Ok(0x04));
    assert_eq!(cpu.loadb(0, 0x0021), Ok(0x08));
    assert_eq!(cpu.loadb(0, 0x0301), Ok(0x08));
    let mut cpu = native16(&[0x85, 0x10, 0x86, 0x20, 0x84, 0x30]);
    cpu.a = 0x12AB;
    cpu.x = 0x3456;
    cpu.y = 0x789A;
    for _ in 0..3 {
        assert_eq!(cpu.instruction(), Ok(RunStatus::Running));
    }
    assert_eq!(cpu.loadw(0, 0x0010), Ok(0x12AB));
    assert_eq!(cpu.loadw(0, 0x0020), Ok(0x3456));
    assert_eq!(cpu.loadw(0, 0x0030), Ok(0x789A));
}

#[test]
fn transfers() {
    let mut cpu = machine(&[0xAA, 0x8A, 0xBB, 0x9A, 0xEB]);
    cpu.a = 0x1280;
    cpu.instruction().unwrap();
    assert_eq!(cpu.x, 0x0080);
    assert!(cpu.p.negative());
    cpu.x = 0x0000;
    cpu.instruction().unwrap();
    assert_eq!(cpu.a, 0x1200);
    assert!(cpu.p.zero());
    cpu.y = 0x0042;
    cpu.instruction().unwrap();
    assert_eq!(cpu.x, 0x0042);
    cpu.x = 0x12FE;
    let p = cpu.p;
    cpu.instruction().unwrap();
    assert_eq!(cpu.s, 0x01FE);
    assert_eq!(cpu.p, p);
    cpu.a = 0x8001;
    cpu.instruction().unwrap();
    assert_eq!(cpu.a, 0x0180);
    assert!(cpu.p.negative() && !cpu.p.zero());
    let mut cpu = native16(&[0xAA, 0x8A, 0xBB, 0x9A, 0xEB]);
    cpu.a = 0x8000;
    cpu.instruction().unwrap();
    assert_eq!(cpu.x, 0x8000);
    cpu.x = 0x1234;
    cpu.instruction().unwrap();
    assert_eq!(cpu.a, 0x1234);
    cpu.y = 0xFFFF;
    cpu.instruction().unwrap();
    assert_eq!(cpu.x, 0xFFFF);
    cpu.instruction().unwrap();
    assert_eq!(cpu.s, 0xFFFF);
    cpu.a = 0x00FF;
    cpu.instruction().unwrap();
    assert_eq!(cpu.a, 0xFF00);
    assert!(cpu.p.zero() && !cpu.p.negative());
}

#[test]
fn counting() {
    let mut cpu = machine(&[0xE8, 0xCA, 0xCA, 0xC8, 0x88, 0x88]);
    cpu.x = 0x00FF;
    cpu.instruction().unwrap();
    assert_eq!(cpu.x, 0x0000);
    assert!(cpu.p.zero());
    cpu.instruction().unwrap();
    assert_eq!(cpu.x, 0x00FF);
    assert!(cpu.p.negative());
    cpu.instruction().unwrap();
    assert_eq!(cpu.x, 0x00FE);
    cpu.instruction().unwrap();
    assert_eq!(cpu.y, 0x0001);
    cpu.instruction().unwrap();
    assert_eq!(cpu.y, 0x0000);
    cpu.instruction().unwrap();
    assert_eq!(cpu.y, 0x00FF);
    let mut cpu = native16(&[0xE8, 0xCA, 0xCA, 0xC8, 0x88]);
    cpu.x = 0xFFFF;
    cpu.instruction().unwrap();
    assert_eq!(cpu.x, 0x0000);
    cpu.instruction().unwrap();
    assert_eq!(cpu.x, 0xFFFF);
    cpu.instruction().unwrap();
    assert_eq!(cpu.x, 0xFFFE);
    cpu.y = 0x00FF;
    cpu.instruction().unwrap();
    assert_eq!(cpu.y, 0x0100);
    cpu.instruction().unwrap();
    assert_eq!(cpu.y, 0x00FF);
}

#[test]
fn increment_memory() {
    let mut cpu = machine(&[0xEE, 0x00, 0x02, 0xEE, 0x00, 0x02]);
    cpu.bus.write(0, 0x0200, 0xFE);
    cpu.instruction().unwrap();
    assert_eq!(cpu.loadb(0, 0x0200), Ok(0xFF));
    assert!(cpu.p.negative());
    cpu.instruction().unwrap();
    assert_eq!(cpu.loadb(0, 0x0200), Ok(0x00));
    assert_eq!(cpu.loadb(0, 0x0201), Ok(0x00));
    assert!(cpu.p.zero());
    let mut cpu = native16(&[0xEE, 0x00, 0x02]);
    cpu.bus.write(0, 0x0200, 0xFF);
    cpu.instruction().unwrap();
    assert_eq!(cpu.loadw(0, 0x0200), Ok(0x0100));
    let mut cpu = machine(&[0xEE, 0x00, 0x90]);
    assert_eq!(cpu.instruction(), Err(Fault::BusWrite { bank: 0, addr: 0x9000 }));
    assert!(!cpu.p.zero());
}

#[test]
fn countdown_loop_runs_to_the_stop() {
    // LDX #3 ; loop: DEX ; BNE loop ; STP
    let mut cpu = machine(&[0xA2, 0x03, 0xCA, 0xD0, 0xFD, 0xDB]);
    let mut steps = 0;
    loop {
        steps += 1;
        if cpu.instruction() != Ok(RunStatus::Running) {
            break;
        }
    }
    assert_eq!(steps, 8);
    assert_eq!(cpu.x, 0);
    assert_eq!(cpu.run_status, RunStatus::Stopped);
    assert_eq!(cpu.pc, 0x8006);
}
