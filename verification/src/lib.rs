//! An emulator core for a 65C816-class processor: the status register, the
//! register file, the addressing-mode resolver and the instruction engine,
//! each stated over a mathematical model of the machine and proved against it.

pub mod fault;
pub mod machine;
pub mod word;
