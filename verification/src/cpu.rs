use vstd::prelude::*;
use crate::bus::{Bus, read_from};
use crate::isa::{
    advance, decode, execute, index_address, is_implemented, lemma_index_address_wraps,
    lemma_page_cross_needs_indexed_mode, lemma_zero_page_index_wraps, page, read_word, resolve,
    step_outcome, with_pc, word, Execution, Operand, Operation, StepOutcome,
};
use crate::status::Status;

verus! {

/// The 6502 core: its registers, its status bits and the cycles it has run.
pub struct Cpu {
    pub registers: Registers,
    pub status: Status,
    pub cycle_count: u64,
}

/// The programmer-visible registers.
pub struct Registers {
    /// Accumulator.
    pub a: u8,
    /// Index register X.
    pub x: u8,
    /// Index register Y.
    pub y: u8,
    /// Stack pointer (an offset into page 1).
    pub sp: u8,
    /// Program counter.
    pub pc: u16,
}

/// How an instruction finds its operand.
#[derive(Debug)]
pub enum AddressingMode {
    /// The operand is the byte after the opcode.
    Immediate,
    /// A one-byte address into page zero.
    ZeroPage,
    /// A zero-page address plus X, wrapping within page zero.
    ZeroPageX,
    /// A zero-page address plus Y, wrapping within page zero.
    ZeroPageY,
    /// A two-byte address, low byte first.
    Absolute,
    /// A two-byte address plus X.
    AbsoluteX,
    /// A two-byte address plus Y.
    AbsoluteY,
    /// The address stored in page zero at (operand + X), wrapping within page zero.
    IndirectX,
    /// The address stored in page zero at the operand, plus Y.
    IndirectY,
}

impl Cpu {
    /// The processor at power-on: registers clear, the stack pointer at `0xFD`,
    /// interrupts disabled (with the unused bit set), no cycles run.
    pub fn new() -> (cpu: Self)
        ensures
            cpu.registers == (Registers { a: 0, x: 0, y: 0, sp: 0xFD, pc: 0 }),
            cpu.status.0 == 0x24,
            cpu.status.0 == Status::INTERRUPT_DISABLE | Status::UNUSED,
            cpu.cycle_count == 0,
    {
        assert(4u8 | 32u8 == 0x24u8) by (bit_vector);
        Cpu {
            registers: Registers { a: 0, x: 0, y: 0, sp: 0xFD, pc: 0 },
            status: Status(Status::INTERRUPT_DISABLE | Status::UNUSED),
            cycle_count: 0,
        }
    }

    /// Runs one instruction and returns the cycles it took, which are also added to
    /// `cycle_count`.
    pub fn step<T: Bus>(&mut self, bus: &mut T) -> (cycles: u8)
        requires
            is_implemented(old(bus).peek(old(self).registers.pc)),
            old(self).cycle_count + step_outcome(
                old(self).registers,
                old(self).status.0,
                *old(bus),
            ).cycles <= u64::MAX,
        ensures
            step_outcome(old(self).registers, old(self).status.0, *old(bus)) == (StepOutcome {
                registers: final(self).registers,
                status: final(self).status.0,
                bus: *final(bus),
                cycles,
            }),
            final(self).cycle_count == old(self).cycle_count + cycles,
    {
        let opcode = self.fetch_byte(bus);
        proof {
            let decoded = decode(opcode)->0;
            lemma_page_cross_needs_indexed_mode(
                decoded.1,
                self.registers.pc,
                self.registers.x,
                self.registers.y,
                *bus,
            );
        }
        let cycles: u8 = match opcode {
            // LDA
            0xA9 => {
                let _ = self.lda(bus, AddressingMode::Immediate);
                2
            },
            0xA5 => {
                let _ = self.lda(bus, AddressingMode::ZeroPage);
                3
            },
            0xB5 => {
                let _ = self.lda(bus, AddressingMode::ZeroPageX);
                4
            },
            0xAD => {
                let _ = self.lda(bus, AddressingMode::Absolute);
                4
            },
            0xBD => {
                let page_crossed = self.lda(bus, AddressingMode::AbsoluteX);
                if page_crossed { 5 } else { 4 }
            },
            0xB9 => {
                let page_crossed = self.lda(bus, AddressingMode::AbsoluteY);
                if page_crossed { 5 } else { 4 }
            },
            0xA1 => {
                let _ = self.lda(bus, AddressingMode::IndirectX);
                6
            },
            0xB1 => {
                let page_crossed = self.lda(bus, AddressingMode::IndirectY);
                if page_crossed { 6 } else { 5 }
            },
            // LDX
            0xA2 => {
                let _ = self.ldx(bus, AddressingMode::Immediate);
                2
            },
            0xA6 => {
                let _ = self.ldx(bus, AddressingMode::ZeroPage);
                3
            },
            0xB6 => {
                let _ = self.ldx(bus, AddressingMode::ZeroPageY);
                4
            },
            0xAE => {
                let _ = self.ldx(bus, AddressingMode::Absolute);
                4
            },
            0xBE => {
                let page_crossed = self.ldx(bus, AddressingMode::AbsoluteY);
                if page_crossed { 5 } else { 4 }
            },
            // LDY
            0xA0 => {
                let _ = self.ldy(bus, AddressingMode::Immediate);
                2
            },
            0xA4 => {
                let _ = self.ldy(bus, AddressingMode::ZeroPage);
                3
            },
            0xB4 => {
                let _ = self.ldy(bus, AddressingMode::ZeroPageX);
                4
            },
            0xAC => {
                let _ = self.ldy(bus, AddressingMode::Absolute);
                4
            },
            0xBC => {
                let page_crossed = self.ldy(bus, AddressingMode::AbsoluteX);
                if page_crossed { 5 } else { 4 }
            },
            // STA
            0x85 => {
                self.sta(bus, AddressingMode::ZeroPage);
                3
            },
            0x95 => {
                self.sta(bus, AddressingMode::ZeroPageX);
                4
            },
            0x8D => {
                self.sta(bus, AddressingMode::Absolute);
                4
            },
            0x9D => {
                self.sta(bus, AddressingMode::AbsoluteX);
                5
            },
            0x99 => {
                self.sta(bus, AddressingMode::AbsoluteY);
                5
            },
            0x81 => {
                self.sta(bus, AddressingMode::IndirectX);
                6
            },
            0x91 => {
                self.sta(bus, AddressingMode::IndirectY);
                6
            },
            _ => vstd::pervasive::unreached(),
        };
        self.cycle_count += cycles as u64;
        cycles
    }

    /// The address of the operand byte under the program counter, which moves past it.
    pub fn take_pc(&mut self) -> (address: u16)
        ensures
            address == old(self).registers.pc,
            final(self).registers == with_pc(old(self).registers, advance(old(self).registers.pc, 1)),
            final(self).status == old(self).status,
            final(self).cycle_count == old(self).cycle_count,
    {
        let address = self.registers.pc;
        self.registers.pc = self.registers.pc.wrapping_add(1);
        address
    }

    /// Reads the byte under the program counter, which moves past it.
    pub fn fetch_byte<T: Bus>(&mut self, bus: &mut T) -> (byte: u8)
        ensures
            (byte, *final(bus)) == read_from(*old(bus), old(self).registers.pc),
            final(self).registers == with_pc(old(self).registers, advance(old(self).registers.pc, 1)),
            final(self).status == old(self).status,
            final(self).cycle_count == old(self).cycle_count,
    {
        let byte = bus.read(self.registers.pc);
        self.registers.pc = self.registers.pc.wrapping_add(1);
        byte
    }

    /// Reads the little-endian word under the program counter, which moves past it.
    pub fn fetch_word<T: Bus>(&mut self, bus: &mut T) -> (value: u16)
        ensures
            (value, *final(bus)) == read_word(*old(bus), old(self).registers.pc),
            final(self).registers == with_pc(old(self).registers, advance(old(self).registers.pc, 2)),
            final(self).status == old(self).status,
            final(self).cycle_count == old(self).cycle_count,
    {
        let lo = self.fetch_byte(bus);
        let hi = self.fetch_byte(bus);
        word_from_le_bytes(lo, hi)
    }

    /// Reads a base address under the program counter and adds `index` to it;
    /// also tells whether the sum lies on another page than the base.
    pub fn get_indexed_address<T: Bus>(&mut self, bus: &mut T, index: u8) -> (result: (u16, bool))
        ensures
            ({
                let (base, bus1) = read_word(*old(bus), old(self).registers.pc);
                &&& result.0 == index_address(base, index)
                &&& result.1 == (page(base) != page(result.0))
                &&& *final(bus) == bus1
            }),
            final(self).registers == with_pc(old(self).registers, advance(old(self).registers.pc, 2)),
            final(self).status == old(self).status,
            final(self).cycle_count == old(self).cycle_count,
    {
        let base = self.fetch_word(bus);
        let address = base.wrapping_add(index as u16);
        proof {
            lemma_index_address_wraps(base, index);
        }
        assert((base & 0xFF00u16 != address & 0xFF00u16) == (base / 256 != address / 256))
            by (bit_vector);
        (address, base & 0xFF00 != address & 0xFF00)
    }

    /// Finds the operand of an instruction in `mode` whose operand bytes start under
    /// the program counter: its address and whether indexing crossed a page.
    pub fn get_address_by_mode<T: Bus>(&mut self, bus: &mut T, mode: AddressingMode) -> (result: (
        u16,
        bool,
    ))
        ensures
            resolve(mode, old(self).registers.pc, old(self).registers.x, old(self).registers.y, *old(bus))
                == (Operand {
                address: result.0,
                page_crossed: result.1,
                pc: final(self).registers.pc,
                bus: *final(bus),
            }),
            final(self).registers == with_pc(old(self).registers, final(self).registers.pc),
            final(self).status == old(self).status,
            final(self).cycle_count == old(self).cycle_count,
    {
        proof {
            reveal(resolve);
        }
        match mode {
            AddressingMode::Immediate => (self.take_pc(), false),
            AddressingMode::ZeroPage => (self.fetch_byte(bus) as u16, false),
            AddressingMode::ZeroPageX => {
                let base = self.fetch_byte(bus);
                proof {
                    lemma_zero_page_index_wraps(base, self.registers.x);
                }
                (base.wrapping_add(self.registers.x) as u16, false)
            },
            AddressingMode::ZeroPageY => {
                let base = self.fetch_byte(bus);
                proof {
                    lemma_zero_page_index_wraps(base, self.registers.y);
                }
                (base.wrapping_add(self.registers.y) as u16, false)
            },
            AddressingMode::Absolute => (self.fetch_word(bus), false),
            AddressingMode::AbsoluteX => {
                let x = self.registers.x;
                self.get_indexed_address(bus, x)
            },
            AddressingMode::AbsoluteY => {
                let y = self.registers.y;
                self.get_indexed_address(bus, y)
            },
            AddressingMode::IndirectX => {
                let nn = self.fetch_byte(bus);
                let pointer = nn.wrapping_add(self.registers.x);
                proof {
                    lemma_zero_page_index_wraps(nn, self.registers.x);
                    lemma_zero_page_index_wraps(pointer, 1);
                }
                let lo = bus.read(pointer as u16);
                let hi = bus.read(pointer.wrapping_add(1) as u16);
                (word_from_le_bytes(lo, hi), false)
            },
            AddressingMode::IndirectY => {
                let nn = self.fetch_byte(bus);
                proof {
                    lemma_zero_page_index_wraps(nn, 1);
                }
                let lo = bus.read(nn as u16);
                let hi = bus.read(nn.wrapping_add(1) as u16);
                let pointer = word_from_le_bytes(lo, hi);
                let indexed_pointer = pointer.wrapping_add(self.registers.y as u16);
                proof {
                    lemma_index_address_wraps(pointer, self.registers.y);
                }
                assert((pointer & 0xFF00u16 != indexed_pointer & 0xFF00u16) == (pointer / 256
                    != indexed_pointer / 256)) by (bit_vector);
                (indexed_pointer, pointer & 0xFF00 != indexed_pointer & 0xFF00)
            },
        }
    }

    /// LDA: loads the operand into the accumulator and sets `Z` and `N` from it;
    /// returns whether finding the operand crossed a page.
    pub fn lda<T: Bus>(&mut self, bus: &mut T, mode: AddressingMode) -> (page_crossed: bool)
        ensures
            execute(Operation::Lda, mode, old(self).registers, old(self).status.0, *old(bus))
                == (Execution {
                registers: final(self).registers,
                status: final(self).status.0,
                bus: *final(bus),
                page_crossed,
            }),
            final(self).cycle_count == old(self).cycle_count,
    {
        let (address, page_crossed) = self.get_address_by_mode(bus, mode);
        let operand = bus.read(address);
        self.registers.a = operand;
        self.status.set_zero_and_negative(operand);
        page_crossed
    }

    /// LDX: loads the operand into X and sets `Z` and `N` from it;
    /// returns whether finding the operand crossed a page.
    pub fn ldx<T: Bus>(&mut self, bus: &mut T, mode: AddressingMode) -> (page_crossed: bool)
        ensures
            execute(Operation::Ldx, mode, old(self).registers, old(self).status.0, *old(bus))
                == (Execution {
                registers: final(self).registers,
                status: final(self).status.0,
                bus: *final(bus),
                page_crossed,
            }),
            final(self).cycle_count == old(self).cycle_count,
    {
        let (address, page_crossed) = self.get_address_by_mode(bus, mode);
        let operand = bus.read(address);
        self.registers.x = operand;
        self.status.set_zero_and_negative(operand);
        page_crossed
    }

    /// LDY: loads the operand into Y and sets `Z` and `N` from it;
    /// returns whether finding the operand crossed a page.
    pub fn ldy<T: Bus>(&mut self, bus: &mut T, mode: AddressingMode) -> (page_crossed: bool)
        ensures
            execute(Operation::Ldy, mode, old(self).registers, old(self).status.0, *old(bus))
                == (Execution {
                registers: final(self).registers,
                status: final(self).status.0,
                bus: *final(bus),
                page_crossed,
            }),
            final(self).cycle_count == old(self).cycle_count,
    {
        let (address, page_crossed) = self.get_address_by_mode(bus, mode);
        let operand = bus.read(address);
        self.registers.y = operand;
        self.status.set_zero_and_negative(operand);
        page_crossed
    }

    /// STA: writes the accumulator to the operand's address; no flag changes.
    pub fn sta<T: Bus>(&mut self, bus: &mut T, mode: AddressingMode)
        ensures
            execute(Operation::Sta, mode, old(self).registers, old(self).status.0, *old(bus))
                == (Execution {
                registers: final(self).registers,
                status: final(self).status.0,
                bus: *final(bus),
                page_crossed: execute(
                    Operation::Sta,
                    mode,
                    old(self).registers,
                    old(self).status.0,
                    *old(bus),
                ).page_crossed,
            }),
            final(self).cycle_count == old(self).cycle_count,
    {
        let (address, _) = self.get_address_by_mode(bus, mode);
        bus.write(address, self.registers.a);
    }
}

/// The 16-bit word whose low byte is `lo` and high byte `hi`.
fn word_from_le_bytes(lo: u8, hi: u8) -> (value: u16)
    ensures
        value == word(lo, hi),
{
    (hi as u16) * 0x100 + (lo as u16)
}

} // verus!
