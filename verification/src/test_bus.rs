use vstd::prelude::*;
use crate::bus::Bus;
use crate::cpu::{AddressingMode, Cpu, Registers};
use crate::isa::{advance, decode, is_implemented, loads_only, resolve, run, step_outcome, Operation};

verus! {

/// A bus that is nothing but 64 KiB of RAM over the whole address space:
/// reads have no side effect and a write changes exactly the byte written.
pub struct TestBus(pub [u8; 0x10000]);

impl TestBus {
    /// A bus whose memory holds zeros everywhere.
    pub fn new() -> (bus: Self)
        ensures
            forall|i: int| 0 <= i < 0x10000 ==> bus.0@[i] == 0,
    {
        TestBus([0;0x10000])
    }
}

impl Bus for TestBus {
    open spec fn peek(&self, address: u16) -> u8 {
        self.0@[address as int]
    }

    open spec fn after_read(&self, address: u16) -> Self {
        *self
    }

    open spec fn after_write(&self, address: u16, byte: u8) -> Self {
        TestBus(vstd::array::spec_array_update(self.0, address as int, byte))
    }

    fn read(&mut self, address: u16) -> (byte: u8) {
        self.0[address as usize]
    }

    fn write(&mut self, address: u16, byte: u8) {
        self.0[address as usize] = byte
    }
}

/// Where `create_test_cpu_and_bus` puts the program and points the program counter.
pub const STARTING_ADDRESS: u16 = 0x8000;

/// A processor in its power-on state but with the program counter at
/// `STARTING_ADDRESS`, and a zeroed bus that holds `bytes_to_write` from there on.
pub fn create_test_cpu_and_bus(bytes_to_write: &[u8]) -> (result: (Cpu, TestBus))
    requires
        bytes_to_write@.len() <= 0x10000 - STARTING_ADDRESS,
    ensures
        result.0.registers == (Registers { a: 0, x: 0, y: 0, sp: 0xFD, pc: STARTING_ADDRESS }),
        result.0.status.0 == 0x24,
        result.0.cycle_count == 0,
        forall|i: int|
            0 <= i < bytes_to_write@.len() ==> result.1.0@[STARTING_ADDRESS + i]
                == bytes_to_write@[i],
        forall|i: int|
            0 <= i < 0x10000 && !(STARTING_ADDRESS <= i < STARTING_ADDRESS
                + bytes_to_write@.len()) ==> result.1.0@[i] == 0,
{
    let mut cpu = Cpu::new();
    cpu.registers.pc = STARTING_ADDRESS;
    let mut bus = TestBus::new();
    let mut i: usize = 0;
    while i < bytes_to_write.len()
        invariant
            i <= bytes_to_write@.len() <= 0x8000,
            forall|j: int| 0 <= j < i ==> bus.0@[STARTING_ADDRESS + j] == bytes_to_write@[j],
            forall|j: int|
                0 <= j < 0x10000 && !(STARTING_ADDRESS <= j < STARTING_ADDRESS + i) ==> bus.0@[j]
                    == 0,
        decreases bytes_to_write@.len() - i,
    {
        bus.0[(STARTING_ADDRESS as usize) + i] = bytes_to_write[i];
        i = i + 1;
    }
    (cpu, bus)
}

/// On this bus a write changes the byte at its address and no other.
pub proof fn lemma_write_changes_one_byte(bus: TestBus, address: u16, byte: u8)
    ensures
        bus.after_write(address, byte).0@ == bus.0@.update(address as int, byte),
{
}

/// Finding an operand only reads, so it leaves this bus as it was.
pub proof fn lemma_resolve_keeps_memory(mode: AddressingMode, pc: u16, x: u8, y: u8, bus: TestBus)
    ensures
        resolve(mode, pc, x, y, bus).bus == bus,
{
    reveal(resolve);
}

/// On plain memory a load puts the byte stored at its operand's address into its
/// register and leaves memory as it was, and a store puts the accumulator into memory
/// at its operand's address and changes no other byte.
pub proof fn lemma_step_on_memory(registers: Registers, status: u8, bus: TestBus)
    requires
        is_implemented(bus.0@[registers.pc as int]),
    ensures
        ({
            let (operation, mode) = decode(bus.0@[registers.pc as int])->0;
            let address = resolve(mode, advance(registers.pc, 1), registers.x, registers.y, bus).address;
            let after = step_outcome(registers, status, bus);
            &&& (operation is Sta ==> after.bus.0@ == bus.0@.update(address as int, registers.a))
            &&& (!(operation is Sta) ==> after.bus == bus)
            &&& (operation is Lda ==> after.registers.a == bus.0@[address as int])
            &&& (operation is Ldx ==> after.registers.x == bus.0@[address as int])
            &&& (operation is Ldy ==> after.registers.y == bus.0@[address as int])
        }),
{
    let (operation, mode) = decode(bus.0@[registers.pc as int])->0;
    lemma_resolve_keeps_memory(mode, advance(registers.pc, 1), registers.x, registers.y, bus);
    let address = resolve(mode, advance(registers.pc, 1), registers.x, registers.y, bus).address;
    lemma_write_changes_one_byte(bus, address, registers.a);
}

/// Over any run of loads plain memory is only read, so it ends as it began.
pub proof fn lemma_loads_leave_memory(registers: Registers, status: u8, bus: TestBus, n: nat)
    requires
        loads_only(registers, status, bus, n),
    ensures
        run(registers, status, bus, n).bus == bus,
    decreases n,
{
    if n > 0 {
        lemma_step_on_memory(registers, status, bus);
        let first = step_outcome(registers, status, bus);
        lemma_loads_leave_memory(first.registers, first.status, first.bus, (n - 1) as nat);
    }
}

/// The bus after `writes`, applied in order.
pub open spec fn after_writes(bus: TestBus, writes: Seq<(u16, u8)>) -> TestBus
    decreases writes.len(),
{
    if writes.len() == 0 {
        bus
    } else {
        after_writes(bus, writes.drop_last()).after_write(writes.last().0, writes.last().1)
    }
}

/// A read gives back the byte last written to its address, however many writes to
/// other addresses came between.
pub proof fn lemma_read_after_writes_elsewhere(
    bus: TestBus,
    address: u16,
    byte: u8,
    writes: Seq<(u16, u8)>,
)
    requires
        forall|i: int| 0 <= i < writes.len() ==> writes[i].0 != address,
    ensures
        after_writes(bus.after_write(address, byte), writes).peek(address) == byte,
    decreases writes.len(),
{
    if writes.len() == 0 {
        lemma_write_changes_one_byte(bus, address, byte);
    } else {
        let earlier = after_writes(bus.after_write(address, byte), writes.drop_last());
        lemma_read_after_writes_elsewhere(bus, address, byte, writes.drop_last());
        lemma_write_changes_one_byte(earlier, writes.last().0, writes.last().1);
    }
}

/// A read gives back the byte written to its address even after a write to another
/// address.
pub proof fn lemma_read_after_write_elsewhere(bus: TestBus, a: u16, v: u8, b: u16, w: u8)
    requires
        b != a,
    ensures
        bus.after_write(a, v).after_write(b, w).peek(a) == v,
{
    lemma_write_changes_one_byte(bus, a, v);
    lemma_write_changes_one_byte(bus.after_write(a, v), b, w);
}

} // verus!
