use vstd::prelude::*;
use crate::bus::Bus;
use crate::cpu::Cpu;

verus! {

/// A console: the processor and the bus it is wired to.
pub struct Console<T: Bus> {
    cpu: Cpu,
    bus: T,
}

} // verus!
