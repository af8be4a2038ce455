//! What each implemented instruction does, stated over the registers, the
//! status bits and the bus.
use vstd::prelude::*;
use crate::bus::{Bus, read_from};
use crate::cpu::{AddressingMode, Registers};
use crate::status::{after_load, lemma_after_load, Status};

verus! {

/// The operations the processor implements.
pub enum Operation {
    /// Load the accumulator.
    Lda,
    /// Load the X index register.
    Ldx,
    /// Load the Y index register.
    Ldy,
    /// Store the accumulator.
    Sta,
}

/// The operation and addressing mode that `opcode` selects, or `None` where the
/// processor does not implement it.
pub open spec fn decode(opcode: u8) -> Option<(Operation, AddressingMode)> {
    match opcode {
        0xA9 => Some((Operation::Lda, AddressingMode::Immediate)),
        0xA5 => Some((Operation::Lda, AddressingMode::ZeroPage)),
        0xB5 => Some((Operation::Lda, AddressingMode::ZeroPageX)),
        0xAD => Some((Operation::Lda, AddressingMode::Absolute)),
        0xBD => Some((Operation::Lda, AddressingMode::AbsoluteX)),
        0xB9 => Some((Operation::Lda, AddressingMode::AbsoluteY)),
        0xA1 => Some((Operation::Lda, AddressingMode::IndirectX)),
        0xB1 => Some((Operation::Lda, AddressingMode::IndirectY)),
        0xA2 => Some((Operation::Ldx, AddressingMode::Immediate)),
        0xA6 => Some((Operation::Ldx, AddressingMode::ZeroPage)),
        0xB6 => Some((Operation::Ldx, AddressingMode::ZeroPageY)),
        0xAE => Some((Operation::Ldx, AddressingMode::Absolute)),
        0xBE => Some((Operation::Ldx, AddressingMode::AbsoluteY)),
        0xA0 => Some((Operation::Ldy, AddressingMode::Immediate)),
        0xA4 => Some((Operation::Ldy, AddressingMode::ZeroPage)),
        0xB4 => Some((Operation::Ldy, AddressingMode::ZeroPageX)),
        0xAC => Some((Operation::Ldy, AddressingMode::Absolute)),
        0xBC => Some((Operation::Ldy, AddressingMode::AbsoluteX)),
        0x85 => Some((Operation::Sta, AddressingMode::ZeroPage)),
        0x95 => Some((Operation::Sta, AddressingMode::ZeroPageX)),
        0x8D => Some((Operation::Sta, AddressingMode::Absolute)),
        0x9D => Some((Operation::Sta, AddressingMode::AbsoluteX)),
        0x99 => Some((Operation::Sta, AddressingMode::AbsoluteY)),
        0x81 => Some((Operation::Sta, AddressingMode::IndirectX)),
        0x91 => Some((Operation::Sta, AddressingMode::IndirectY)),
        _ => None,
    }
}

/// Whether the processor implements `opcode`.
pub open spec fn is_implemented(opcode: u8) -> bool {
    decode(opcode) is Some
}

/// The cycles an instruction takes when no page boundary is crossed.
pub open spec fn base_cycles(operation: Operation, mode: AddressingMode) -> u8 {
    match mode {
        AddressingMode::Immediate => 2,
        AddressingMode::ZeroPage => 3,
        AddressingMode::ZeroPageX => 4,
        AddressingMode::ZeroPageY => 4,
        AddressingMode::Absolute => 4,
        AddressingMode::AbsoluteX => if operation is Sta { 5 } else { 4 },
        AddressingMode::AbsoluteY => if operation is Sta { 5 } else { 4 },
        AddressingMode::IndirectX => 6,
        AddressingMode::IndirectY => if operation is Sta { 6 } else { 5 },
    }
}

/// The cycles an instruction takes: a load pays one more when its indexed address
/// lies on another page than the base it was computed from; a store never does.
pub open spec fn cycles(operation: Operation, mode: AddressingMode, page_crossed: bool) -> u8 {
    if page_crossed && !(operation is Sta) {
        (base_cycles(operation, mode) + 1) as u8
    } else {
        base_cycles(operation, mode)
    }
}

/// The bytes an addressing mode takes after the opcode.
pub open spec fn operand_length(mode: AddressingMode) -> int {
    match mode {
        AddressingMode::Absolute => 2,
        AddressingMode::AbsoluteX => 2,
        AddressingMode::AbsoluteY => 2,
        _ => 1,
    }
}

/// `pc` advanced by `n`, wrapping around the 16-bit address space.
pub open spec fn advance(pc: u16, n: int) -> u16 {
    ((pc + n) % 0x10000) as u16
}

/// The zero-page address `base + index`, wrapping within page zero.
pub open spec fn zero_page_index(base: u8, index: u8) -> u8 {
    ((base + index) % 0x100) as u8
}

/// The address `base + index`, wrapping around the 16-bit address space.
pub open spec fn index_address(base: u16, index: u8) -> u16 {
    ((base + index) % 0x10000) as u16
}

/// The 16-bit word whose low byte is `lo` and high byte `hi`.
pub open spec fn word(lo: u8, hi: u8) -> u16 {
    (hi * 0x100 + lo) as u16
}

/// The 256-byte page that holds `address`.
pub open spec fn page(address: u16) -> int {
    address as int / 0x100
}

/// The registers with the program counter replaced by `pc`.
pub open spec fn with_pc(registers: Registers, pc: u16) -> Registers {
    Registers { pc, ..registers }
}

/// The word stored little-endian at `address` and `address + 1`, and the bus after
/// the two reads.
pub open spec fn read_word<T: Bus>(bus: T, address: u16) -> (u16, T) {
    let (lo, bus1) = read_from(bus, address);
    let (hi, bus2) = read_from(bus1, advance(address, 1));
    (word(lo, hi), bus2)
}

/// Where an instruction's operand is: its address, whether computing that address
/// crossed a page, the program counter after the operand bytes, and the bus after
/// the reads that took.
pub struct Operand<T> {
    pub address: u16,
    pub page_crossed: bool,
    pub pc: u16,
    pub bus: T,
}

/// The pointer read from the zero page at `pointer` and `pointer + 1`, wrapping
/// within page zero, and the bus after the two reads.
pub open spec fn read_zero_page_pointer<T: Bus>(bus: T, pointer: u8) -> (u16, T) {
    let (lo, bus1) = read_from(bus, pointer as u16);
    let (hi, bus2) = read_from(bus1, zero_page_index(pointer, 1) as u16);
    (word(lo, hi), bus2)
}

/// The operand of an instruction whose operand bytes start at `pc`, for each mode.
#[verifier::opaque]
pub open spec fn resolve<T: Bus>(mode: AddressingMode, pc: u16, x: u8, y: u8, bus: T) -> Operand<T> {
    match mode {
        AddressingMode::Immediate => Operand {
            address: pc,
            page_crossed: false,
            pc: advance(pc, 1),
            bus,
        },
        AddressingMode::ZeroPage => {
            let (base, bus1) = read_from(bus, pc);
            Operand { address: base as u16, page_crossed: false, pc: advance(pc, 1), bus: bus1 }
        },
        AddressingMode::ZeroPageX => {
            let (base, bus1) = read_from(bus, pc);
            Operand {
                address: zero_page_index(base, x) as u16,
                page_crossed: false,
                pc: advance(pc, 1),
                bus: bus1,
            }
        },
        AddressingMode::ZeroPageY => {
            let (base, bus1) = read_from(bus, pc);
            Operand {
                address: zero_page_index(base, y) as u16,
                page_crossed: false,
                pc: advance(pc, 1),
                bus: bus1,
            }
        },
        AddressingMode::Absolute => {
            let (address, bus1) = read_word(bus, pc);
            Operand { address, page_crossed: false, pc: advance(pc, 2), bus: bus1 }
        },
        AddressingMode::AbsoluteX => {
            let (base, bus1) = read_word(bus, pc);
            let address = index_address(base, x);
            Operand {
                address,
                page_crossed: page(base) != page(address),
                pc: advance(pc, 2),
                bus: bus1,
            }
        },
        AddressingMode::AbsoluteY => {
            let (base, bus1) = read_word(bus, pc);
            let address = index_address(base, y);
            Operand {
                address,
                page_crossed: page(base) != page(address),
                pc: advance(pc, 2),
                bus: bus1,
            }
        },
        AddressingMode::IndirectX => {
            let (base, bus1) = read_from(bus, pc);
            let (address, bus2) = read_zero_page_pointer(bus1, zero_page_index(base, x));
            Operand { address, page_crossed: false, pc: advance(pc, 1), bus: bus2 }
        },
        AddressingMode::IndirectY => {
            let (base, bus1) = read_from(bus, pc);
            let (pointer, bus2) = read_zero_page_pointer(bus1, base);
            let address = index_address(pointer, y);
            Operand {
                address,
                page_crossed: page(pointer) != page(address),
                pc: advance(pc, 1),
                bus: bus2,
            }
        },
    }
}

/// The state after an operation has found its operand and carried it out.
pub struct Execution<T> {
    pub registers: Registers,
    pub status: u8,
    pub bus: T,
    pub page_crossed: bool,
}

/// `operation` in `mode`, with the operand bytes starting at `registers.pc`: a load
/// reads the operand into its register and sets `Z` and `N` from it; a store writes
/// the accumulator to the operand's address and leaves the flags alone.
pub open spec fn execute<T: Bus>(
    operation: Operation,
    mode: AddressingMode,
    registers: Registers,
    status: u8,
    bus: T,
) -> Execution<T> {
    let operand = resolve(mode, registers.pc, registers.x, registers.y, bus);
    let moved = with_pc(registers, operand.pc);
    match operation {
        Operation::Sta => Execution {
            registers: moved,
            status,
            bus: operand.bus.after_write(operand.address, registers.a),
            page_crossed: operand.page_crossed,
        },
        _ => {
            let (value, bus1) = read_from(operand.bus, operand.address);
            Execution {
                registers: match operation {
                    Operation::Lda => Registers { a: value, ..moved },
                    Operation::Ldx => Registers { x: value, ..moved },
                    _ => Registers { y: value, ..moved },
                },
                status: after_load(status, value),
                bus: bus1,
                page_crossed: operand.page_crossed,
            }
        },
    }
}

/// The state after one instruction, the registers, status bits and bus it leaves
/// and the cycles it took.
pub struct StepOutcome<T> {
    pub registers: Registers,
    pub status: u8,
    pub bus: T,
    pub cycles: u8,
}

/// One instruction: fetch the opcode at `pc`, decode it, carry it out.
pub open spec fn step_outcome<T: Bus>(registers: Registers, status: u8, bus: T) -> StepOutcome<T> {
    let (opcode, bus1) = read_from(bus, registers.pc);
    let (operation, mode) = decode(opcode)->0;
    let execution = execute(operation, mode, with_pc(registers, advance(registers.pc, 1)), status, bus1);
    StepOutcome {
        registers: execution.registers,
        status: execution.status,
        bus: execution.bus,
        cycles: cycles(operation, mode, execution.page_crossed),
    }
}

/// Only the indexed modes that add to a full 16-bit address, absolute X, absolute Y
/// and indirect Y, can cross a page; the others never report a crossing.
pub proof fn lemma_page_cross_needs_indexed_mode<T: Bus>(
    mode: AddressingMode,
    pc: u16,
    x: u8,
    y: u8,
    bus: T,
)
    ensures
        resolve(mode, pc, x, y, bus).page_crossed ==> (mode is AbsoluteX || mode is AbsoluteY
            || mode is IndirectY),
{
    reveal(resolve);
}

/// Adding an index to a zero-page address with the byte's wrapping addition stays in
/// page zero: it is the sum modulo 256.
pub proof fn lemma_zero_page_index_wraps(base: u8, index: u8)
    ensures
        vstd::wrapping::u8_specs::wrapping_add(base, index) == zero_page_index(base, index),
        (zero_page_index(base, index) as u16) < 0x100,
{
}

/// Adding an index to a 16-bit address with the word's wrapping addition is the sum
/// modulo 65536.
pub proof fn lemma_index_address_wraps(base: u16, index: u8)
    ensures
        vstd::wrapping::u16_specs::wrapping_add(base, index as u16) == index_address(base, index),
{
}

/// A step moves the program counter past the opcode and its operand bytes, two bytes
/// for immediate, zero-page and indirect modes and three for absolute ones, whatever
/// the bus does; the stack pointer never moves.
pub proof fn lemma_step_advances_pc<T: Bus>(registers: Registers, status: u8, bus: T)
    requires
        is_implemented(bus.peek(registers.pc)),
    ensures
        step_outcome(registers, status, bus).registers.pc == advance(
            registers.pc,
            1 + operand_length((decode(bus.peek(registers.pc))->0).1),
        ),
        step_outcome(registers, status, bus).registers.sp == registers.sp,
{
    reveal(resolve);
    let (operation, mode) = decode(bus.peek(registers.pc))->0;
    let pc1 = advance(registers.pc, 1);
    assert(advance(pc1, operand_length(mode)) == advance(registers.pc, 1 + operand_length(mode)));
}

/// A store changes no register other than the program counter and no flag, and takes
/// its base cycles whether or not its address crossed a page.
pub proof fn lemma_store_keeps_registers_and_flags<T: Bus>(registers: Registers, status: u8, bus: T)
    requires
        decode(bus.peek(registers.pc)) matches Some((Operation::Sta, _)),
    ensures
        step_outcome(registers, status, bus).registers == with_pc(
            registers,
            step_outcome(registers, status, bus).registers.pc,
        ),
        step_outcome(registers, status, bus).status == status,
        step_outcome(registers, status, bus).cycles == base_cycles(
            Operation::Sta,
            (decode(bus.peek(registers.pc))->0).1,
        ),
{
}

/// A load changes only its target register (besides the program counter): the
/// other registers keep their values, and the flags become those of a load of the
/// new value.
pub proof fn lemma_load_changes_only_its_register<T: Bus>(registers: Registers, status: u8, bus: T)
    requires
        decode(bus.peek(registers.pc)) matches Some((operation, _)) && !(operation is Sta),
    ensures
        ({
            let (operation, _) = decode(bus.peek(registers.pc))->0;
            let after = step_outcome(registers, status, bus).registers;
            let value = match operation {
                Operation::Lda => after.a,
                Operation::Ldx => after.x,
                _ => after.y,
            };
            &&& step_outcome(registers, status, bus).status == after_load(status, value)
            &&& (operation is Lda ==> after == Registers { a: value, ..with_pc(registers, after.pc) })
            &&& (operation is Ldx ==> after == Registers { x: value, ..with_pc(registers, after.pc) })
            &&& (operation is Ldy ==> after == Registers { y: value, ..with_pc(registers, after.pc) })
        }),
{
}

/// Every implemented instruction takes from two to six cycles.
pub proof fn lemma_cycles_bounds<T: Bus>(registers: Registers, status: u8, bus: T)
    requires
        is_implemented(bus.peek(registers.pc)),
    ensures
        2 <= step_outcome(registers, status, bus).cycles <= 6,
{
    let (opcode, bus1) = read_from(bus, registers.pc);
    let (operation, mode) = decode(opcode)->0;
    let pc1 = advance(registers.pc, 1);
    lemma_page_cross_needs_indexed_mode(mode, pc1, registers.x, registers.y, bus1);
}

/// Adding an index to an address lands on another page exactly when adding it to the
/// low byte carries.
pub proof fn lemma_page_cross_iff_carry(base: u16, index: u8)
    ensures
        (page(index_address(base, index)) != page(base)) == (base % 0x100 + index >= 0x100),
{
}

/// The zero-page modes, plain or indexed, address page zero only, however large the
/// index.
pub proof fn lemma_zero_page_modes_stay_in_page_zero<T: Bus>(
    mode: AddressingMode,
    pc: u16,
    x: u8,
    y: u8,
    bus: T,
)
    requires
        mode is ZeroPage || mode is ZeroPageX || mode is ZeroPageY,
    ensures
        resolve(mode, pc, x, y, bus).address < 0x100,
{
    reveal(resolve);
}

/// Where a run of steps ends: the registers, status bits and bus it leaves, and the
/// cycles it took in all.
pub struct Run<T> {
    pub registers: Registers,
    pub status: u8,
    pub bus: T,
    pub cycles: int,
}

/// `n` instructions, one after another.
pub open spec fn run<T: Bus>(registers: Registers, status: u8, bus: T, n: nat) -> Run<T>
    decreases n,
{
    if n == 0 {
        Run { registers, status, bus, cycles: 0 }
    } else {
        let first = step_outcome(registers, status, bus);
        let rest = run(first.registers, first.status, first.bus, (n - 1) as nat);
        Run {
            registers: rest.registers,
            status: rest.status,
            bus: rest.bus,
            cycles: first.cycles + rest.cycles,
        }
    }
}

/// Whether each of the next `n` instructions is an implemented load.
pub open spec fn loads_only<T: Bus>(registers: Registers, status: u8, bus: T, n: nat) -> bool
    decreases n,
{
    n == 0 || {
        &&& decode(bus.peek(registers.pc)) matches Some((operation, _)) && !(operation is Sta)
        &&& loads_only(
            step_outcome(registers, status, bus).registers,
            step_outcome(registers, status, bus).status,
            step_outcome(registers, status, bus).bus,
            (n - 1) as nat,
        )
    }
}

/// Over any run of loads the stack pointer stays where it was and every flag but
/// `Z` and `N` keeps its value.
pub proof fn lemma_loads_keep_sp_and_other_flags<T: Bus>(
    registers: Registers,
    status: u8,
    bus: T,
    n: nat,
)
    requires
        loads_only(registers, status, bus, n),
    ensures
        run(registers, status, bus, n).registers.sp == registers.sp,
        run(registers, status, bus, n).status & !(Status::ZERO | Status::NEGATIVE) == status & !(
        Status::ZERO | Status::NEGATIVE),
    decreases n,
{
    if n > 0 {
        let first = step_outcome(registers, status, bus);
        lemma_step_advances_pc(registers, status, bus);
        lemma_load_changes_only_its_register(registers, status, bus);
        let (operation, _) = decode(bus.peek(registers.pc))->0;
        let value = match operation {
            Operation::Lda => first.registers.a,
            Operation::Ldx => first.registers.x,
            _ => first.registers.y,
        };
        lemma_after_load(status, value);
        lemma_loads_keep_sp_and_other_flags(first.registers, first.status, first.bus, (n - 1) as nat);
    }
}

/// From power-on, any run of loads keeps the interrupt-disable and unused bits set
/// and the stack pointer at `0xFD`.
pub proof fn lemma_loads_from_power_on<T: Bus>(registers: Registers, bus: T, n: nat)
    requires
        registers.sp == 0xFD,
        loads_only(registers, 0x24, bus, n),
    ensures
        run(registers, 0x24, bus, n).registers.sp == 0xFD,
        run(registers, 0x24, bus, n).status & (Status::INTERRUPT_DISABLE | Status::UNUSED) == (
        Status::INTERRUPT_DISABLE | Status::UNUSED),
{
    lemma_loads_keep_sp_and_other_flags(registers, 0x24, bus, n);
    let bits = run(registers, 0x24, bus, n).status;
    assert(bits & !(2u8 | 128u8) == 0x24u8 & !(2u8 | 128u8) ==> bits & (4u8 | 32u8) == (4u8
        | 32u8)) by (bit_vector);
}

/// The absolute indexed modes read the base address little-endian from the two
/// bytes after the opcode and add the index as an unsigned byte, wrapping around the
/// 16-bit address space; they cross a page exactly when adding the index to the low
/// byte of the base carries, so an index of zero never crosses.
pub proof fn lemma_absolute_indexed_operand<T: Bus>(pc: u16, x: u8, y: u8, bus: T)
    ensures
        ({
            let lo = bus.peek(pc);
            let hi = bus.after_read(pc).peek(((pc + 1) % 0x10000) as u16);
            let after = bus.after_read(pc).after_read(((pc + 1) % 0x10000) as u16);
            let base = hi * 0x100 + lo;
            let by_x = resolve(AddressingMode::AbsoluteX, pc, x, y, bus);
            let by_y = resolve(AddressingMode::AbsoluteY, pc, x, y, bus);
            &&& by_x.address == (base + x) % 0x10000
            &&& by_x.page_crossed == (lo + x >= 0x100)
            &&& by_x.pc == (pc + 2) % 0x10000
            &&& by_x.bus == after
            &&& by_y.address == (base + y) % 0x10000
            &&& by_y.page_crossed == (lo + y >= 0x100)
            &&& by_y.pc == (pc + 2) % 0x10000
            &&& by_y.bus == after
        }),
{
    reveal(resolve);
    let lo = bus.peek(pc);
    let hi = bus.after_read(pc).peek(((pc + 1) % 0x10000) as u16);
    let base = word(lo, hi);
    assert(base == hi * 0x100 + lo);
    lemma_page_cross_iff_carry(base, x);
    lemma_page_cross_iff_carry(base, y);
}

/// Indirect indexed, `(zp),Y`: the pointer is read little-endian from the zero-page
/// byte after the opcode and the one after it (wrapping within page zero), Y is added
/// to it as an unsigned byte, wrapping around the 16-bit address space, and a page is
/// crossed exactly when adding Y to the pointer's low byte carries.
pub proof fn lemma_indirect_indexed_operand<T: Bus>(pc: u16, x: u8, y: u8, bus: T)
    ensures
        ({
            let zp = bus.peek(pc);
            let bus1 = bus.after_read(pc);
            let lo = bus1.peek(zp as u16);
            let bus2 = bus1.after_read(zp as u16);
            let hi = bus2.peek(((zp + 1) % 0x100) as u16);
            let operand = resolve(AddressingMode::IndirectY, pc, x, y, bus);
            &&& operand.address == (hi * 0x100 + lo + y) % 0x10000
            &&& operand.page_crossed == (lo + y >= 0x100)
            &&& operand.pc == (pc + 1) % 0x10000
            &&& operand.bus == bus2.after_read(((zp + 1) % 0x100) as u16)
        }),
{
    reveal(resolve);
    let zp = bus.peek(pc);
    let bus1 = bus.after_read(pc);
    let lo = bus1.peek(zp as u16);
    let bus2 = bus1.after_read(zp as u16);
    let hi = bus2.peek(((zp + 1) % 0x100) as u16);
    lemma_page_cross_iff_carry(word(lo, hi), y);
}

/// Indexed indirect, `(zp,X)`: X is added to the zero-page byte after the opcode,
/// wrapping within page zero, and the operand address is the little-endian word
/// stored there and in the next zero-page byte (again wrapping); no page is crossed.
pub proof fn lemma_indexed_indirect_operand<T: Bus>(pc: u16, x: u8, y: u8, bus: T)
    ensures
        ({
            let pointer = (bus.peek(pc) + x) % 0x100;
            let bus1 = bus.after_read(pc);
            let lo = bus1.peek(pointer as u16);
            let bus2 = bus1.after_read(pointer as u16);
            let hi = bus2.peek(((pointer + 1) % 0x100) as u16);
            let operand = resolve(AddressingMode::IndirectX, pc, x, y, bus);
            &&& operand.address == hi * 0x100 + lo
            &&& !operand.page_crossed
            &&& operand.pc == (pc + 1) % 0x10000
            &&& operand.bus == bus2.after_read(((pointer + 1) % 0x100) as u16)
        }),
{
    reveal(resolve);
}

/// The direct modes: immediate addresses the byte after the opcode; zero page uses
/// that byte as the address; zero page,X and zero page,Y add the index to it, wrapping
/// within page zero; absolute reads the address little-endian from the two bytes after
/// the opcode. None of them crosses a page.
pub proof fn lemma_direct_operands<T: Bus>(pc: u16, x: u8, y: u8, bus: T)
    ensures
        resolve(AddressingMode::Immediate, pc, x, y, bus).address == pc,
        resolve(AddressingMode::Immediate, pc, x, y, bus).bus == bus,
        resolve(AddressingMode::ZeroPage, pc, x, y, bus).address == bus.peek(pc),
        resolve(AddressingMode::ZeroPageX, pc, x, y, bus).address == (bus.peek(pc) + x) % 0x100,
        resolve(AddressingMode::ZeroPageY, pc, x, y, bus).address == (bus.peek(pc) + y) % 0x100,
        resolve(AddressingMode::Absolute, pc, x, y, bus).address == bus.after_read(pc).peek(
            ((pc + 1) % 0x10000) as u16,
        ) * 0x100 + bus.peek(pc),
        !resolve(AddressingMode::Immediate, pc, x, y, bus).page_crossed,
        !resolve(AddressingMode::ZeroPage, pc, x, y, bus).page_crossed,
        !resolve(AddressingMode::ZeroPageX, pc, x, y, bus).page_crossed,
        !resolve(AddressingMode::ZeroPageY, pc, x, y, bus).page_crossed,
        !resolve(AddressingMode::Absolute, pc, x, y, bus).page_crossed,
{
    reveal(resolve);
}

/// How long each instruction takes, by mode: a load takes 2 cycles immediate, 3 zero
/// page, 4 zero page indexed or absolute, 4 absolute indexed plus one when the index
/// carries out of the base's low byte, 6 indexed indirect, and 5 indirect indexed plus
/// one on the same carry; a store takes 3, 4, 4, 5, 6 and 6 in the same modes, never
/// more.
pub proof fn lemma_step_cycles<T: Bus>(registers: Registers, status: u8, bus: T)
    requires
        is_implemented(bus.peek(registers.pc)),
    ensures
        ({
            let (operation, mode) = decode(bus.peek(registers.pc))->0;
            let pc = ((registers.pc + 1) % 0x10000) as u16;
            let bus1 = bus.after_read(registers.pc);
            let operand = resolve(mode, pc, registers.x, registers.y, bus1);
            let crossed: int = if operand.page_crossed { 1 } else { 0 };
            let taken = step_outcome(registers, status, bus).cycles;
            &&& operation is Sta ==> taken == match mode {
                AddressingMode::ZeroPage => 3,
                AddressingMode::ZeroPageX => 4,
                AddressingMode::Absolute => 4,
                AddressingMode::AbsoluteX => 5,
                AddressingMode::AbsoluteY => 5,
                _ => 6int,
            }
            &&& !(operation is Sta) ==> taken == match mode {
                AddressingMode::Immediate => 2,
                AddressingMode::ZeroPage => 3,
                AddressingMode::ZeroPageX => 4,
                AddressingMode::ZeroPageY => 4,
                AddressingMode::Absolute => 4,
                AddressingMode::AbsoluteX => 4 + crossed,
                AddressingMode::AbsoluteY => 4 + crossed,
                AddressingMode::IndirectX => 6,
                AddressingMode::IndirectY => 5 + crossed,
            }
        }),
{
    let (operation, mode) = decode(bus.peek(registers.pc))->0;
    let pc = advance(registers.pc, 1);
    lemma_page_cross_needs_indexed_mode(mode, pc, registers.x, registers.y, bus.after_read(registers.pc));
}

} // verus!
