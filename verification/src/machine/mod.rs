//! The emulated machine: the bus and the processor that drives it.

pub mod bus;
pub mod cpu;
pub mod io;
