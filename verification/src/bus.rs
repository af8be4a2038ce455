use vstd::prelude::*;

verus! {

/// What the processor is wired to: every access goes through a bus, which maps
/// the 16-bit address space onto RAM, devices and cartridge.
///
/// A read may change the bus (a device register can clear itself when read),
/// so the bus states the byte a read gives and the state it leaves behind as
/// functions of the state before the access.
pub trait Bus: Sized {
    /// The byte that a read of `address` returns in this state.
    spec fn peek(&self, address: u16) -> u8;

    /// The state of the bus after a read of `address`.
    spec fn after_read(&self, address: u16) -> Self;

    /// The state of the bus after `byte` is written to `address`.
    spec fn after_write(&self, address: u16, byte: u8) -> Self;

    fn read(&mut self, address: u16) -> (byte: u8)
        ensures
            byte == old(self).peek(address),
            *final(self) == old(self).after_read(address),
    ;

    fn write(&mut self, address: u16, byte: u8)
        ensures
            *final(self) == old(self).after_write(address, byte),
    ;
}

/// A read of `address` on `bus`: the byte it returns and the bus it leaves.
pub open spec fn read_from<T: Bus>(bus: T, address: u16) -> (u8, T) {
    (bus.peek(address), bus.after_read(address))
}

} // verus!
