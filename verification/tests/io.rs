use emulator::machine::io::uart::{UartFault, FIFO_SIZE, UART};
use emulator::machine::io::{IoEffect, IoFault, IO};

#[test]
fn uart_at_power_on() {
    let mut uart = UART::new();
    assert_eq!(uart.divisor(), 0);
    assert_eq!(uart.read(0x03), Ok(0x00));
    assert_eq!(uart.read(0x05), Ok(0x60));
    assert_eq!(uart.read(0x00), Err(UartFault::ReceiveEmpty));
    assert_eq!(uart.transmit(), None);
    assert!(uart.can_receive());
}

#[test]
fn transmit_queue_is_first_in_first_out() {
    let mut uart = UART::new();
    assert_eq!(uart.write(0x00, b'a'), Ok(()));
    assert_eq!(uart.write(0x00, b'b'), Ok(()));
    assert_eq!(uart.write(0x00, b'c'), Ok(()));
    assert_eq!(uart.read(0x05), Ok(0x00));
    assert_eq!(uart.transmit(), Some(b'a'));
    assert_eq!(uart.transmit(), Some(b'b'));
    assert_eq!(uart.transmit(), Some(b'c'));
    assert_eq!(uart.transmit(), None);
    assert_eq!(uart.read(0x05), Ok(0x60));
}

#[test]
fn transmit_queue_holds_sixteen_bytes() {
    let mut uart = UART::new();
    assert_eq!(FIFO_SIZE, 16);
    for i in 0..16u8 {
        assert_eq!(uart.write(0x00, i), Ok(()));
    }
    assert_eq!(uart.write(0x00, 16), Err(UartFault::TransmitFull));
    assert_eq!(uart.transmit(), Some(0));
    assert_eq!(uart.write(0x00, 16), Ok(()));
    for i in 1..=16u8 {
        assert_eq!(uart.transmit(), Some(i));
    }
    assert_eq!(uart.transmit(), None);
}

#[test]
fn receive_queue_is_first_in_first_out() {
    let mut uart = UART::new();
    assert!(uart.receive(b'x'));
    assert!(uart.receive(b'y'));
    assert_eq!(uart.read(0x05), Ok(0x61));
    assert_eq!(uart.write(0x00, b'z'), Ok(()));
    assert_eq!(uart.read(0x05), Ok(0x01));
    assert_eq!(uart.read(0x00), Ok(b'x'));
    assert_eq!(uart.read(0x00), Ok(b'y'));
    assert_eq!(uart.read(0x00), Err(UartFault::ReceiveEmpty));
    assert_eq!(uart.read(0x05), Ok(0x00));
}

#[test]
fn receive_queue_holds_sixteen_bytes() {
    let mut uart = UART::new();
    for i in 0..16u8 {
        assert!(uart.can_receive());
        assert!(uart.receive(i));
    }
    assert!(!uart.can_receive());
    assert!(!uart.receive(0xFF));
    for i in 0..16u8 {
        assert_eq!(uart.read(0x00), Ok(i));
    }
}

#[test]
fn divisor_is_written_through_the_latch() {
    let mut uart = UART::new();
    assert_eq!(uart.write(0x01, 0x12), Err(UartFault::UnimplementedWrite { register: 0x01 }));
    assert_eq!(uart.write(0x03, 0x83), Ok(()));
    assert_eq!(uart.read(0x03), Ok(0x83));
    assert_eq!(uart.write(0x00, 0x34), Ok(()));
    assert_eq!(uart.divisor(), 0x0034);
    assert_eq!(uart.write(0x01, 0x12), Ok(()));
    assert_eq!(uart.divisor(), 0x1234);
    assert_eq!(uart.write(0x00, 0xFF), Ok(()));
    assert_eq!(uart.divisor(), 0x12FF);
    assert_eq!(uart.transmit(), None);
    assert_eq!(uart.read(0x00), Err(UartFault::UnimplementedRead { register: 0x00 }));
    assert_eq!(uart.write(0x03, 0x03), Ok(()));
    assert_eq!(uart.write(0x00, 0x41), Ok(()));
    assert_eq!(uart.divisor(), 0x12FF);
    assert_eq!(uart.transmit(), Some(0x41));
}

#[test]
fn other_registers() {
    let mut uart = UART::new();
    assert_eq!(uart.write(0x02, 0xFF), Ok(()));
    assert_eq!(uart.read(0x01), Err(UartFault::UnimplementedRead { register: 0x01 }));
    assert_eq!(uart.read(0x02), Err(UartFault::UnimplementedRead { register: 0x02 }));
    assert_eq!(uart.read(0x07), Err(UartFault::UnimplementedRead { register: 0x07 }));
    assert_eq!(uart.write(0x04, 0), Err(UartFault::UnimplementedWrite { register: 0x04 }));
    assert_eq!(uart.write(0x07, 0), Err(UartFault::UnimplementedWrite { register: 0x07 }));
}

#[test]
fn service_comes_due_at_the_pace_of_the_line() {
    let mut uart = UART::new();
    assert!(!uart.cycle(3));
    assert!(!uart.cycle(3));
    assert!(uart.cycle(3));
    assert!(!uart.cycle(3));
    assert!(!uart.cycle(3));
    assert!(uart.cycle(3));
    assert!(uart.cycle(0));
    assert!(uart.cycle(1));
}

#[test]
fn ports_are_routed_to_the_uart() {
    let mut io = IO::new();
    assert_eq!(io.write(0x10, b'h'), Ok(IoEffect::Nothing));
    assert_eq!(io.write(0x18, b'i'), Ok(IoEffect::Nothing));
    assert_eq!(io.read(0x15), Ok(0x00));
    assert_eq!(io.uart.transmit(), Some(b'h'));
    assert_eq!(io.uart.transmit(), Some(b'i'));
    assert_eq!(io.read(0x15), Ok(0x60));
    assert_eq!(io.write(0x13, 0x80), Ok(IoEffect::Nothing));
    assert_eq!(io.read(0x13), Ok(0x80));
    assert_eq!(io.read(0x10), Err(IoFault::Uart(UartFault::UnimplementedRead { register: 0 })));
    assert!(io.cycle(1));
}

#[test]
fn debug_ports_and_unanswered_ports() {
    let mut io = IO::new();
    assert_eq!(io.write(0x00, 0xAB), Ok(IoEffect::Debug { port: 0x00, value: 0xAB }));
    assert_eq!(io.write(0x0F, 0x01), Ok(IoEffect::Debug { port: 0x0F, value: 0x01 }));
    assert_eq!(io.read(0x00), Err(IoFault::UnimplementedRead { port: 0x00 }));
    assert_eq!(io.read(0x0F), Err(IoFault::UnimplementedRead { port: 0x0F }));
    assert_eq!(io.read(0x19), Err(IoFault::UnimplementedRead { port: 0x19 }));
    assert_eq!(io.write(0x19, 0), Err(IoFault::UnimplementedWrite { port: 0x19 }));
    assert_eq!(io.write(0xFF, 0), Err(IoFault::UnimplementedWrite { port: 0xFF }));
    assert_eq!(io.uart.transmit(), None);
}

#[test]
fn one_round_of_service_moves_a_byte_each_way() {
    let mut uart = UART::new();
    assert_eq!(uart.handle_term(None), (None, false));
    assert_eq!(uart.write(0x00, b'o'), Ok(()));
    assert_eq!(uart.handle_term(Some(b'i')), (Some(b'o'), true));
    assert_eq!(uart.handle_term(None), (None, false));
    assert_eq!(uart.handle_term(Some(b'j')), (None, true));
    assert_eq!(uart.read(0x00), Ok(b'i'));
    assert_eq!(uart.read(0x00), Ok(b'j'));
    for i in 0..16u8 {
        assert_eq!(uart.handle_term(Some(i)), (None, true));
    }
    assert_eq!(uart.handle_term(Some(0xFF)), (None, false));
    assert_eq!(uart.write(0x00, b'p'), Ok(()));
    assert_eq!(uart.handle_term(Some(0xFF)), (Some(b'p'), true));
    assert_eq!(uart.read(0x00), Ok(0));
}
