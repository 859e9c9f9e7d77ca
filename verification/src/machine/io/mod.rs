//! The peripheral port space: which device, if any, answers a port.
//!
//! Ports `0x10..=0x18` belong to the serial port; ports `0x00..=0x0F` are
//! write-only debug ports whose writes are handed back to the embedder.

pub mod uart;

use uart::{UartFault, UartView, UART};
use vstd::prelude::*;

verus! {

/// Why a port access could not be carried out.
#[derive(Clone, Copy, Debug, PartialEq, Eq, Structural)]
pub enum IoFault {
    /// No device answers reads of the port.
    UnimplementedRead { port: u8 },
    /// No device answers writes to the port.
    UnimplementedWrite { port: u8 },
    /// The serial port refused the access.
    Uart(UartFault),
}

/// What a port write asks of the embedder.
#[derive(Clone, Copy, Debug, PartialEq, Eq, Structural)]
pub enum IoEffect {
    /// Nothing to do.
    Nothing,
    /// A byte was written to a debug port and is to be shown.
    Debug { port: u8, value: u8 },
}

/// Whether the serial port answers `port`.
pub open spec fn is_uart_port(port: u8) -> bool {
    0x10 <= port <= 0x18
}

/// A read of `port`: the serial port's register `port & 7`, or a fault.
pub open spec fn io_read(uart: UartView, port: u8) -> (UartView, Result<u8, IoFault>) {
    if is_uart_port(port) {
        let (after, r) = uart.read(port & 0x07);
        match r {
            Ok(value) => (after, Ok(value)),
            Err(e) => (after, Err(IoFault::Uart(e))),
        }
    } else {
        (uart, Err(IoFault::UnimplementedRead { port }))
    }
}

/// A write to `port`: a debug byte for the embedder, a write to the serial
/// port's register `port & 7`, or a fault.
pub open spec fn io_write(uart: UartView, port: u8, value: u8) -> (UartView, Result<
    IoEffect,
    IoFault,
>) {
    if port <= 0x0F {
        (uart, Ok(IoEffect::Debug { port, value }))
    } else if is_uart_port(port) {
        let (after, r) = uart.write(port & 0x07, value);
        match r {
            Ok(_) => (after, Ok(IoEffect::Nothing)),
            Err(e) => (after, Err(IoFault::Uart(e))),
        }
    } else {
        (uart, Err(IoFault::UnimplementedWrite { port }))
    }
}

pub struct IO {
    pub uart: UART,
}

impl IO {
    /// The port space at power-on.
    pub fn new() -> (io: IO)
        ensures
            io.uart@ == UartView::reset(),
    {
        IO { uart: UART::new() }
    }

    /// One core cycle has passed; `cycles_between_char` is the pace of the
    /// serial line. Tells whether the serial port is due for service.
    pub fn cycle(&mut self, cycles_between_char: u64) -> (due: bool)
        ensures
            (final(self).uart@, due) == old(self).uart@.cycle(cycles_between_char),
    {
        self.uart.cycle(cycles_between_char)
    }

    /// Reads `addr`: the register `addr & 7` of the serial port, or a fault.
    pub fn read(&mut self, addr: u8) -> (r: Result<u8, IoFault>)
        ensures
            (final(self).uart@, r) == io_read(old(self).uart@, addr),
    {
        if 0x10 <= addr && addr <= 0x18 {
            match self.uart.read(addr & 0x07) {
                Ok(value) => Ok(value),
                Err(e) => Err(IoFault::Uart(e)),
            }
        } else {
            Err(IoFault::UnimplementedRead { port: addr })
        }
    }

    /// Writes `addr`: a debug byte for the embedder, a write to the serial
    /// port's register `addr & 7`, or a fault.
    pub fn write(&mut self, addr: u8, value: u8) -> (r: Result<IoEffect, IoFault>)
        ensures
            (final(self).uart@, r) == io_write(old(self).uart@, addr, value),
    {
        if addr <= 0x0F {
            Ok(IoEffect::Debug { port: addr, value })
        } else if addr <= 0x18 {
            match self.uart.write(addr & 0x07, value) {
                Ok(_) => Ok(IoEffect::Nothing),
                Err(e) => Err(IoFault::Uart(e)),
            }
        } else {
            Err(IoFault::UnimplementedWrite { port: addr })
        }
    }
}

} // verus!
