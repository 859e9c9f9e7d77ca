//! The serial port: its registers and its two sixteen-byte queues.
//!
//! The port never touches the terminal itself. The embedder moves bytes
//! between the queues and the terminal with `transmit` and `receive`, at
//! the pace that `cycle` reports.

use crate::word::{high, high_byte, join, low, low_byte, make_word};
use vstd::prelude::*;

verus! {

/// How many bytes each queue holds.
pub const FIFO_SIZE: usize = 16;

/// The bit of the line control register that maps the baud rate divisor
/// onto registers 0 and 1.
pub const DIVISOR_LATCH: u8 = 0x80;

/// Why a register access could not be carried out.
#[derive(Clone, Copy, Debug, PartialEq, Eq, Structural)]
pub enum UartFault {
    /// The receive register was read with nothing received.
    ReceiveEmpty,
    /// The transmit register was written with the transmit queue full.
    TransmitFull,
    /// Reads of this register are not wired up.
    UnimplementedRead { register: u8 },
    /// Writes to this register are not wired up.
    UnimplementedWrite { register: u8 },
}

/// The serial port as a mathematical value. The head of each queue is the
/// byte that leaves next.
pub struct UartView {
    pub ier: u8,
    pub fcr: u8,
    pub isr: u8,
    pub lcr: u8,
    pub mcr: u8,
    pub msr: u8,
    pub spr: u8,
    pub brg: u16,
    pub tx: Seq<u8>,
    pub rx: Seq<u8>,
    pub cycles: u64,
}

impl UartView {
    /// The port at power-on.
    pub open spec fn reset() -> UartView {
        UartView {
            ier: 0x00,
            fcr: 0x00,
            isr: 0x01,
            lcr: 0x00,
            mcr: 0x00,
            msr: 0x00,
            spr: 0xFF,
            brg: 0x0000,
            tx: Seq::empty(),
            rx: Seq::empty(),
            cycles: 0,
        }
    }

    /// Registers 0 and 1 show the baud rate divisor.
    pub open spec fn divisor_latched(self) -> bool {
        self.lcr & DIVISOR_LATCH != 0
    }

    /// The line status: bit 0 iff a byte was received, bits 5 and 6 iff
    /// nothing waits to be sent.
    pub open spec fn line_status(self) -> u8 {
        if self.rx.len() > 0 {
            if self.tx.len() == 0 {
                0x61
            } else {
                0x01
            }
        } else if self.tx.len() == 0 {
            0x60
        } else {
            0x00
        }
    }

    /// A register read. Register 0 takes the oldest received byte.
    pub open spec fn read(self, addr: u8) -> (UartView, Result<u8, UartFault>) {
        if addr == 0x00 {
            if self.divisor_latched() {
                (self, Err(UartFault::UnimplementedRead { register: addr }))
            } else if self.rx.len() == 0 {
                (self, Err(UartFault::ReceiveEmpty))
            } else {
                (UartView { rx: self.rx.drop_first(), ..self }, Ok(self.rx[0]))
            }
        } else if addr == 0x03 {
            (self, Ok(self.lcr))
        } else if addr == 0x05 {
            (self, Ok(self.line_status()))
        } else {
            (self, Err(UartFault::UnimplementedRead { register: addr }))
        }
    }

    /// A register write. Register 0 queues a byte for sending, or sets
    /// the low byte of the divisor; register 1 sets its high byte.
    pub open spec fn write(self, addr: u8, value: u8) -> (UartView, Result<(), UartFault>) {
        if addr == 0x00 {
            if self.divisor_latched() {
                (UartView { brg: join(high(self.brg), value), ..self }, Ok(()))
            } else if self.tx.len() >= FIFO_SIZE {
                (self, Err(UartFault::TransmitFull))
            } else {
                (UartView { tx: self.tx.push(value), ..self }, Ok(()))
            }
        } else if addr == 0x01 {
            if self.divisor_latched() {
                (UartView { brg: join(value, low(self.brg)), ..self }, Ok(()))
            } else {
                (self, Err(UartFault::UnimplementedWrite { register: addr }))
            }
        } else if addr == 0x02 {
            (UartView { fcr: value & 0xCF, ..self }, Ok(()))
        } else if addr == 0x03 {
            (UartView { lcr: value, ..self }, Ok(()))
        } else {
            (self, Err(UartFault::UnimplementedWrite { register: addr }))
        }
    }

    /// The oldest byte that waits to be sent leaves the port.
    pub open spec fn transmit(self) -> (UartView, Option<u8>) {
        if self.tx.len() > 0 {
            (UartView { tx: self.tx.drop_first(), ..self }, Some(self.tx[0]))
        } else {
            (self, None)
        }
    }

    /// There is room for one more received byte.
    pub open spec fn can_receive(self) -> bool {
        self.rx.len() < FIFO_SIZE
    }

    /// A byte arrives from the line; without room it is lost.
    pub open spec fn receive(self, byte: u8) -> (UartView, bool) {
        if self.can_receive() {
            (UartView { rx: self.rx.push(byte), ..self }, true)
        } else {
            (self, false)
        }
    }

    /// One round of service: the oldest byte that waits to be sent leaves,
    /// and `incoming`, if there is one and there is room, is queued. The
    /// flag tells whether a byte moved either way.
    pub open spec fn handle_term(self, incoming: Option<u8>) -> (UartView, (Option<u8>, bool)) {
        let (sent, outgoing) = self.transmit();
        let (after, taken) = match incoming {
            Some(byte) => sent.receive(byte),
            None => (sent, false),
        };
        (after, (outgoing, outgoing is Some || taken))
    }

    /// One core cycle passes. When as many cycles have passed as lie
    /// between two characters, the count starts over and service is due.
    pub open spec fn cycle(self, cycles_between_char: u64) -> (UartView, bool) {
        if self.cycles.wrapping_add(1) >= cycles_between_char {
            (UartView { cycles: 0, ..self }, true)
        } else {
            (UartView { cycles: self.cycles.wrapping_add(1), ..self }, false)
        }
    }
}

pub struct UART {
    ier: u8,
    fcr: u8,
    isr: u8,
    lcr: u8,
    mcr: u8,
    msr: u8,
    spr: u8,
    brg: u16,
    tx_fifo: Vec<u8>,
    rx_fifo: Vec<u8>,
    cycles: u64,
}

impl View for UART {
    type V = UartView;

    /// The registers, the two queues and the cycle count.
    closed spec fn view(&self) -> UartView {
        UartView {
            ier: self.ier,
            fcr: self.fcr,
            isr: self.isr,
            lcr: self.lcr,
            mcr: self.mcr,
            msr: self.msr,
            spr: self.spr,
            brg: self.brg,
            tx: self.tx_fifo@,
            rx: self.rx_fifo@,
            cycles: self.cycles,
        }
    }
}

impl UART {
    /// The port at power-on.
    pub fn new() -> (uart: UART)
        ensures
            uart@ == UartView::reset(),
    {
        UART {
            ier: 0x00,
            fcr: 0x00,
            isr: 0x01,
            lcr: 0x00,
            mcr: 0x00,
            msr: 0x00,
            spr: 0xFF,
            brg: 0x0000,
            tx_fifo: Vec::new(),
            rx_fifo: Vec::new(),
            cycles: 0,
        }
    }

    /// The baud rate divisor.
    pub fn divisor(&self) -> (brg: u16)
        ensures
            brg == self@.brg,
    {
        self.brg
    }

    /// Takes the oldest byte that waits to be sent, if there is one.
    pub fn transmit(&mut self) -> (byte: Option<u8>)
        ensures
            (final(self)@, byte) == old(self)@.transmit(),
    {
        if self.tx_fifo.len() > 0 {
            let byte: u8 = self.tx_fifo.remove(0);
            assert(self.tx_fifo@ =~= old(self).tx_fifo@.drop_first());
            Some(byte)
        } else {
            None
        }
    }

    /// Whether there is room for one more received byte.
    pub fn can_receive(&self) -> (room: bool)
        ensures
            room == self@.can_receive(),
    {
        self.rx_fifo.len() < FIFO_SIZE
    }

    /// Queues a byte that arrived from the line; tells whether there was
    /// room for it.
    pub fn receive(&mut self, byte: u8) -> (taken: bool)
        ensures
            (final(self)@, taken) == old(self)@.receive(byte),
    {
        if self.rx_fifo.len() < FIFO_SIZE {
            self.rx_fifo.push(byte);
            true
        } else {
            false
        }
    }

    /// Serves both queues once: hands out the byte to put on the line, if
    /// any, takes `incoming` from the line, and tells whether anything
    /// moved.
    pub fn handle_term(&mut self, incoming: Option<u8>) -> (r: (Option<u8>, bool))
        ensures
            (final(self)@, r) == old(self)@.handle_term(incoming),
    {
        let outgoing: Option<u8> = self.transmit();
        let taken: bool = match incoming {
            Some(byte) => self.receive(byte),
            None => false,
        };
        (outgoing, outgoing.is_some() || taken)
    }

    /// Counts one core cycle against the pace of the line and tells
    /// whether the queues are due for service.
    pub fn cycle(&mut self, cycles_between_char: u64) -> (due: bool)
        ensures
            (final(self)@, due) == old(self)@.cycle(cycles_between_char),
    {
        self.cycles = self.cycles.wrapping_add(1);
        if self.cycles >= cycles_between_char {
            self.cycles = 0;
            true
        } else {
            false
        }
    }

    /// Reads a register. Register 0 takes the oldest received byte.
    pub fn read(&mut self, addr: u8) -> (r: Result<u8, UartFault>)
        ensures
            (final(self)@, r) == old(self)@.read(addr),
    {
        if addr == 0x00 {
            if (self.lcr & DIVISOR_LATCH) != 0 {
                Err(UartFault::UnimplementedRead { register: addr })
            } else if self.rx_fifo.len() == 0 {
                Err(UartFault::ReceiveEmpty)
            } else {
                let val: u8 = self.rx_fifo.remove(0);
                assert(self.rx_fifo@ =~= old(self).rx_fifo@.drop_first());
                Ok(val)
            }
        } else if addr == 0x03 {
            Ok(self.lcr)
        } else if addr == 0x05 {
            let received: bool = self.rx_fifo.len() > 0;
            let idle: bool = self.tx_fifo.len() == 0;
            if received {
                if idle {
                    Ok(0x61)
                } else {
                    Ok(0x01)
                }
            } else if idle {
                Ok(0x60)
            } else {
                Ok(0x00)
            }
        } else {
            Err(UartFault::UnimplementedRead { register: addr })
        }
    }

    /// Writes a register. Register 0 queues a byte for sending, or sets the
    /// low byte of the divisor; register 1 sets its high byte.
    pub fn write(&mut self, addr: u8, value: u8) -> (r: Result<(), UartFault>)
        ensures
            (final(self)@, r) == old(self)@.write(addr, value),
    {
        if addr == 0x00 {
            if (self.lcr & DIVISOR_LATCH) != 0 {
                self.brg = make_word(high_byte(self.brg), value);
                Ok(())
            } else if self.tx_fifo.len() >= FIFO_SIZE {
                Err(UartFault::TransmitFull)
            } else {
                self.tx_fifo.push(value);
                Ok(())
            }
        } else if addr == 0x01 {
            if (self.lcr & DIVISOR_LATCH) != 0 {
                self.brg = make_word(value, low_byte(self.brg));
                Ok(())
            } else {
                Err(UartFault::UnimplementedWrite { register: addr })
            }
        } else if addr == 0x02 {
            self.fcr = value & 0xCF;
            Ok(())
        } else if addr == 0x03 {
            self.lcr = value;
            Ok(())
        } else {
            Err(UartFault::UnimplementedWrite { register: addr })
        }
    }
}

/// Bytes leave the transmit queue in the order in which they were written:
/// a byte written to the transmit register comes out after exactly those
/// that waited before it.
pub proof fn lemma_transmit_in_order(uart: UartView, value: u8)
    requires
        !uart.divisor_latched(),
        uart.tx.len() < FIFO_SIZE,
    ensures
        uart.write(0x00, value).1 is Ok,
        uart.write(0x00, value).0.tx == uart.tx.push(value),
        uart.tx.len() == 0 ==> uart.write(0x00, value).0.transmit().1 == Some(value),
        uart.tx.len() > 0 ==> uart.write(0x00, value).0.transmit().1 == Some(uart.tx[0]),
{
}

/// Bytes are read from the receive register in the order in which they
/// arrived.
pub proof fn lemma_receive_in_order(uart: UartView, byte: u8)
    requires
        !uart.divisor_latched(),
        uart.can_receive(),
    ensures
        uart.receive(byte).1,
        uart.receive(byte).0.rx == uart.rx.push(byte),
        uart.rx.len() == 0 ==> uart.receive(byte).0.read(0x00).1 == Ok::<u8, UartFault>(byte),
        uart.rx.len() > 0 ==> uart.receive(byte).0.read(0x00).1 == Ok::<u8, UartFault>(uart.rx[0]),
{
}

} // verus!
