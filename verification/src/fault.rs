//! The conditions that end an emulation session.

use vstd::prelude::*;

verus! {

/// Why an operation could not be carried out. None of these is recoverable
/// within the core: the embedder decides whether to reset, restart or exit.
#[derive(Clone, Copy, Debug, PartialEq, Eq, Structural)]
pub enum Fault {
    /// The opcode byte fetched at `bank:pc` has no entry in the opcode table.
    UnimplementedOpcode { opcode: u8, bank: u8, pc: u16 },
    /// An operand shape whose resolution is not wired up; `bank:pc` is the
    /// program counter when resolution was attempted.
    UnimplementedAddressingMode { bank: u8, pc: u16 },
    /// An indexed long address beyond the 24-bit address space.
    AddressRange,
    /// In emulation mode the stack pointer is outside `0x0100..=0x01FF`.
    StackPage,
    /// A byte accessor met a word immediate, or a word accessor a byte one.
    WidthMismatch,
    /// A read of a location that the bus does not map.
    BusRead { bank: u8, addr: u16 },
    /// A write to a location that the bus does not map or that is read-only.
    BusWrite { bank: u8, addr: u16 },
    /// A word load whose second byte would lie past the end of the bank.
    BankBoundaryLoad { bank: u8 },
}

} // verus!
