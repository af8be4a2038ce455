use lib::bus::Bus;
use lib::cpu::{AddressingMode, Cpu};
use lib::status::Status;
use lib::test_bus::{create_test_cpu_and_bus, TestBus, STARTING_ADDRESS};

/// A bus that records every access, to check which addresses an instruction touches.
struct RecordingBus {
    memory: TestBus,
    reads: Vec<u16>,
    writes: Vec<(u16, u8)>,
}

impl Bus for RecordingBus {
    fn peek(&self, address: u16) -> u8 {
        self.memory.0[address as usize]
    }
    fn after_read(&self, address: u16) -> Self {
        let mut reads = self.reads.clone();
        reads.push(address);
        RecordingBus { memory: TestBus(self.memory.0), reads, writes: self.writes.clone() }
    }
    fn after_write(&self, address: u16, byte: u8) -> Self {
        let mut memory = TestBus(self.memory.0);
        memory.0[address as usize] = byte;
        let mut writes = self.writes.clone();
        writes.push((address, byte));
        RecordingBus { memory, reads: self.reads.clone(), writes }
    }
    fn read(&mut self, address: u16) -> u8 {
        self.reads.push(address);
        self.memory.0[address as usize]
    }
    fn write(&mut self, address: u16, byte: u8) {
        self.writes.push((address, byte));
        self.memory.0[address as usize] = byte;
    }
}

fn recording(bytes: &[u8]) -> (Cpu, RecordingBus) {
    let (cpu, memory) = create_test_cpu_and_bus(bytes);
    (cpu, RecordingBus { memory, reads: Vec::new(), writes: Vec::new() })
}

#[test]
fn new_bus_is_all_zeros() {
    let bus = TestBus::new();
    assert!(bus.0.iter().all(|&b| b == 0));
}

#[test]
fn program_is_placed_at_starting_address() {
    let (cpu, bus) = create_test_cpu_and_bus(&[1, 2, 3]);
    assert_eq!(cpu.registers.pc, STARTING_ADDRESS);
    assert_eq!(bus.0[0x8000], 1);
    assert_eq!(bus.0[0x8001], 2);
    assert_eq!(bus.0[0x8002], 3);
    assert_eq!(bus.0[0x8003], 0);
    assert_eq!(bus.0[0x7FFF], 0);
}

#[test]
fn program_can_fill_the_upper_half() {
    let program = vec![0xEAu8; 0x8000];
    let (_, bus) = create_test_cpu_and_bus(&program);
    assert_eq!(bus.0[0xFFFF], 0xEA);
    assert_eq!(bus.0[0x7FFF], 0);
}

#[test]
fn set_then_is_set_for_every_flag() {
    let flags = [
        Status::CARRY,
        Status::ZERO,
        Status::INTERRUPT_DISABLE,
        Status::DECIMAL_MODE,
        Status::BREAK_COMMAND,
        Status::UNUSED,
        Status::OVERFLOW,
        Status::NEGATIVE,
    ];
    for &flag in flags.iter() {
        let mut status = Status(0x5A);
        status.set(flag, true);
        assert!(status.is_set(flag));
        assert_eq!(status.0 & !flag, 0x5A & !flag);
        status.set(flag, false);
        assert!(!status.is_set(flag));
        assert_eq!(status.0 & !flag, 0x5A & !flag);
    }
}

#[test]
fn setting_one_flag_keeps_the_others() {
    let mut status = Status(Status::CARRY | Status::OVERFLOW);
    status.set(Status::ZERO, true);
    assert!(status.is_set(Status::CARRY));
    assert!(status.is_set(Status::OVERFLOW));
    assert_eq!(status.0, 0b0100_0011);
    status.set(Status::CARRY, false);
    assert_eq!(status.0, 0b0100_0010);
}

#[test]
fn set_with_a_multi_bit_mask_sets_every_bit() {
    let mut status = Status(0);
    status.set(Status::ZERO | Status::NEGATIVE, true);
    assert_eq!(status.0, 0x82);
    assert!(status.is_set(Status::ZERO | Status::CARRY));
    status.set(Status::ZERO | Status::NEGATIVE, false);
    assert_eq!(status.0, 0);
    assert!(!status.is_set(0));
}

#[test]
fn the_flags_fill_the_byte() {
    let all = Status::CARRY
        | Status::ZERO
        | Status::INTERRUPT_DISABLE
        | Status::DECIMAL_MODE
        | Status::BREAK_COMMAND
        | Status::UNUSED
        | Status::OVERFLOW
        | Status::NEGATIVE;
    assert_eq!(all, 0xFF);
}

#[test]
fn set_zero_and_negative_keeps_other_flags() {
    let mut status = Status(0b0111_1101);
    status.set_zero_and_negative(0x00);
    assert_eq!(status.0, 0b0111_1111);
    status.set_zero_and_negative(0xFF);
    assert_eq!(status.0, 0b1111_1101);
    status.set_zero_and_negative(0x7F);
    assert_eq!(status.0, 0b0111_1101);
}

#[test]
fn take_pc_returns_old_pc_and_wraps() {
    let mut cpu = Cpu::new();
    cpu.registers.pc = 0xFFFF;
    assert_eq!(cpu.take_pc(), 0xFFFF);
    assert_eq!(cpu.registers.pc, 0x0000);
}

#[test]
fn fetch_word_is_little_endian_and_wraps() {
    let mut cpu = Cpu::new();
    let mut bus = TestBus::new();
    bus.0[0xFFFF] = 0x34;
    bus.0[0x0000] = 0x12;
    cpu.registers.pc = 0xFFFF;
    assert_eq!(cpu.fetch_word(&mut bus), 0x1234);
    assert_eq!(cpu.registers.pc, 0x0001);
}

#[test]
fn fetch_byte_reads_under_pc() {
    let (mut cpu, mut bus) = create_test_cpu_and_bus(&[0x7E]);
    assert_eq!(cpu.fetch_byte(&mut bus), 0x7E);
    assert_eq!(cpu.registers.pc, STARTING_ADDRESS + 1);
}

#[test]
fn indexed_address_reports_page_crossing_as_carry() {
    let (mut cpu, mut bus) = create_test_cpu_and_bus(&[0xFE, 0x12, 0xFE, 0x12]);
    assert_eq!(cpu.get_indexed_address(&mut bus, 0x01), (0x12FF, false));
    assert_eq!(cpu.get_indexed_address(&mut bus, 0x02), (0x1300, true));
    assert_eq!(cpu.registers.pc, STARTING_ADDRESS + 4);
}

#[test]
fn addressing_modes_resolve_expected_addresses() {
    let (mut cpu, mut bus) = create_test_cpu_and_bus(&[0xF0, 0x34, 0x12]);
    cpu.registers.x = 0x20;
    cpu.registers.y = 0x01;
    bus.0[0x10] = 0xFF;
    bus.0[0x11] = 0x20;
    bus.0[0xF0] = 0x00;
    bus.0[0xF1] = 0x40;
    assert_eq!(cpu.get_address_by_mode(&mut bus, AddressingMode::Immediate), (0x8000, false));
    cpu.registers.pc = STARTING_ADDRESS;
    assert_eq!(cpu.get_address_by_mode(&mut bus, AddressingMode::ZeroPage), (0x00F0, false));
    cpu.registers.pc = STARTING_ADDRESS;
    assert_eq!(cpu.get_address_by_mode(&mut bus, AddressingMode::ZeroPageX), (0x0010, false));
    cpu.registers.pc = STARTING_ADDRESS;
    assert_eq!(cpu.get_address_by_mode(&mut bus, AddressingMode::ZeroPageY), (0x00F1, false));
    cpu.registers.pc = STARTING_ADDRESS + 1;
    assert_eq!(cpu.get_address_by_mode(&mut bus, AddressingMode::Absolute), (0x1234, false));
    cpu.registers.pc = STARTING_ADDRESS;
    assert_eq!(cpu.get_address_by_mode(&mut bus, AddressingMode::IndirectX), (0x20FF, false));
    cpu.registers.pc = STARTING_ADDRESS;
    assert_eq!(cpu.get_address_by_mode(&mut bus, AddressingMode::IndirectY), (0x4001, false));
    assert_eq!(cpu.registers.pc, STARTING_ADDRESS + 1);
}

#[test]
fn lda_returns_page_crossing() {
    let (mut cpu, mut bus) = create_test_cpu_and_bus(&[0xFF, 0x00]);
    cpu.registers.x = 1;
    bus.0[0x0100] = 0x80;
    assert!(cpu.lda(&mut bus, AddressingMode::AbsoluteX));
    assert_eq!(cpu.registers.a, 0x80);
    assert!(cpu.status.is_set(Status::NEGATIVE));
    assert_eq!(cpu.cycle_count, 0);
}

#[test]
fn ldx_and_ldy_load_their_register_only() {
    let (mut cpu, mut bus) = create_test_cpu_and_bus(&[0x00, 0x05]);
    cpu.registers.a = 0x11;
    cpu.registers.y = 0x22;
    cpu.ldx(&mut bus, AddressingMode::Immediate);
    assert_eq!(cpu.registers.x, 0x00);
    assert!(cpu.status.is_set(Status::ZERO));
    cpu.ldy(&mut bus, AddressingMode::Immediate);
    assert_eq!(cpu.registers.y, 0x05);
    assert_eq!(cpu.registers.a, 0x11);
    assert_eq!(cpu.registers.x, 0x00);
    assert!(!cpu.status.is_set(Status::ZERO));
}

#[test]
fn sta_writes_accumulator_only() {
    let (mut cpu, mut bus) = create_test_cpu_and_bus(&[0x40]);
    cpu.registers.a = 0x99;
    cpu.status.0 = 0xC3;
    cpu.sta(&mut bus, AddressingMode::ZeroPage);
    assert_eq!(bus.0[0x40], 0x99);
    assert_eq!(cpu.status.0, 0xC3);
    assert_eq!(cpu.registers.pc, STARTING_ADDRESS + 1);
}

#[test]
fn cycle_count_accumulates_over_steps() {
    let (mut cpu, mut bus) = create_test_cpu_and_bus(&[0xA9, 0x01, 0xA5, 0x10, 0x8D, 0x00, 0x02, 0xBE, 0xFF, 0x01]);
    cpu.registers.y = 1;
    bus.0[0x0010] = 0x77;
    let mut total = 0u64;
    for _ in 0..4 {
        total += u64::from(cpu.step(&mut bus));
    }
    assert_eq!(total, 2 + 3 + 4 + 5);
    assert_eq!(cpu.cycle_count, 14);
    assert_eq!(bus.0[0x0200], 0x77);
    assert_eq!(cpu.registers.x, 0x77);
    assert_eq!(cpu.registers.pc, STARTING_ADDRESS + 10);
}

#[test]
fn cycle_count_is_added_to_not_reset() {
    let (mut cpu, mut bus) = create_test_cpu_and_bus(&[0xA9, 0x01]);
    cpu.cycle_count = 1000;
    cpu.step(&mut bus);
    assert_eq!(cpu.cycle_count, 1002);
}

#[test]
fn step_wraps_program_counter_at_end_of_memory() {
    let mut cpu = Cpu::new();
    let mut bus = TestBus::new();
    cpu.registers.pc = 0xFFFE;
    bus.0[0xFFFE] = 0xA9;
    bus.0[0xFFFF] = 0x33;
    cpu.step(&mut bus);
    assert_eq!(cpu.registers.a, 0x33);
    assert_eq!(cpu.registers.pc, 0x0000);
}

#[test]
fn absolute_operand_wraps_program_counter() {
    let mut cpu = Cpu::new();
    let mut bus = TestBus::new();
    cpu.registers.pc = 0xFFFF;
    bus.0[0xFFFF] = 0xAD;
    bus.0[0x0000] = 0x10;
    bus.0[0x0001] = 0x02;
    bus.0[0x0210] = 0x44;
    assert_eq!(cpu.step(&mut bus), 4);
    assert_eq!(cpu.registers.a, 0x44);
    assert_eq!(cpu.registers.pc, 0x0002);
}

#[test]
fn loads_leave_other_registers_and_flags() {
    let (mut cpu, mut bus) = create_test_cpu_and_bus(&[0xA0, 0x90]);
    cpu.registers.a = 1;
    cpu.registers.x = 2;
    cpu.registers.sp = 0x80;
    cpu.status.0 = Status::CARRY | Status::OVERFLOW | Status::ZERO;
    cpu.step(&mut bus);
    assert_eq!(cpu.registers.y, 0x90);
    assert_eq!((cpu.registers.a, cpu.registers.x, cpu.registers.sp), (1, 2, 0x80));
    assert_eq!(cpu.status.0, Status::CARRY | Status::OVERFLOW | Status::NEGATIVE);
}

#[test]
fn indirect_y_reads_in_order_on_any_bus() {
    let (mut cpu, mut bus) = recording(&[0xB1, 0x20]);
    cpu.registers.y = 0x10;
    bus.memory.0[0x20] = 0xF8;
    bus.memory.0[0x21] = 0x03;
    bus.memory.0[0x0408] = 0x5A;
    assert_eq!(cpu.step(&mut bus), 6);
    assert_eq!(bus.reads, vec![0x8000, 0x8001, 0x0020, 0x0021, 0x0408]);
    assert!(bus.writes.is_empty());
    assert_eq!(cpu.registers.a, 0x5A);
}

#[test]
fn indirect_x_reads_pointer_from_zero_page_on_any_bus() {
    let (mut cpu, mut bus) = recording(&[0x81, 0xFE]);
    cpu.registers.a = 0x66;
    cpu.registers.x = 0x01;
    bus.memory.0[0xFF] = 0x00;
    bus.memory.0[0x00] = 0x03;
    assert_eq!(cpu.step(&mut bus), 6);
    assert_eq!(bus.reads, vec![0x8000, 0x8001, 0x00FF, 0x0000]);
    assert_eq!(bus.writes, vec![(0x0300, 0x66)]);
}

#[test]
fn absolute_store_never_reads_its_target() {
    let (mut cpu, mut bus) = recording(&[0x9D, 0xFF, 0x12]);
    cpu.registers.a = 0x01;
    cpu.registers.x = 0x01;
    assert_eq!(cpu.step(&mut bus), 5);
    assert_eq!(bus.reads, vec![0x8000, 0x8001, 0x8002]);
    assert_eq!(bus.writes, vec![(0x1300, 0x01)]);
}

#[test]
fn every_implemented_opcode_takes_two_to_six_cycles() {
    let opcodes = [
        0xA9u8, 0xA5, 0xB5, 0xAD, 0xBD, 0xB9, 0xA1, 0xB1, 0xA2, 0xA6, 0xB6, 0xAE, 0xBE, 0xA0, 0xA4,
        0xB4, 0xAC, 0xBC, 0x85, 0x95, 0x8D, 0x9D, 0x99, 0x81, 0x91,
    ];
    for &opcode in opcodes.iter() {
        for &operand in [0x00u8, 0xFF].iter() {
            let (mut cpu, mut bus) = create_test_cpu_and_bus(&[opcode, operand, operand]);
            cpu.registers.x = 0xFF;
            cpu.registers.y = 0xFF;
            bus.0[0xFF] = 0xFF;
            bus.0[0x00] = 0xFF;
            let cycles = cpu.step(&mut bus);
            assert!((2..=6).contains(&cycles), "opcode {:#04X}: {}", opcode, cycles);
            assert_eq!(cpu.registers.sp, 0xFD);
        }
    }
}

#[test]
fn run_of_loads_from_power_on_keeps_sp_and_i_u_flags() {
    let program = [0xA9, 0x00, 0xA2, 0x80, 0xA0, 0x7F, 0xB1, 0x10, 0xBE, 0xFF, 0x01];
    let (mut cpu, mut bus) = create_test_cpu_and_bus(&program);
    bus.0[0x10] = 0xFF;
    bus.0[0x11] = 0x00;
    let before = bus.0;
    let mut total = 0u64;
    for _ in 0..5 {
        total += u64::from(cpu.step(&mut bus));
        assert_eq!(cpu.status.0 & 0x24, 0x24);
        assert_eq!(cpu.registers.sp, 0xFD);
    }
    assert_eq!(total, 2 + 2 + 2 + 6 + 5);
    assert_eq!(cpu.cycle_count, total);
    assert!(bus.0 == before);
}

#[test]
fn read_after_writes_elsewhere_returns_byte_written() {
    let mut bus = TestBus::new();
    bus.write(0x1234, 0xAB);
    bus.write(0x1235, 0x01);
    bus.write(0x0000, 0x02);
    bus.write(0xFFFF, 0x03);
    assert_eq!(bus.read(0x1234), 0xAB);
    assert_eq!(bus.read(0x1234), 0xAB);
    bus.write(0x1234, 0xCD);
    assert_eq!(bus.read(0x1234), 0xCD);
}
