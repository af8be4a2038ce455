//! A NES emulator core: the 6502 (2A03) processor, its status register and
//! the bus through which it reaches memory.

pub mod bus;
pub mod console;
pub mod cpu;
pub mod isa;
pub mod status;
pub mod test_bus;
