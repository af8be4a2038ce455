# nes core

The processor core of a NES emulator: the 6502 (2A03) CPU with its registers,
status flags and cycle count, reaching memory through a `Bus`.

- `src/bus.rs`: the `Bus` trait; each bus states, as spec functions of its
  state, what a read returns and what a read or a write leaves behind.
- `src/status.rs`: the status register and its flags, with the laws of setting
  and clearing them.
- `src/isa.rs`: the instruction set as specification: opcode decoding,
  addressing modes, operation effects and cycle counts, and the laws of a step.
- `src/cpu.rs`: the executable processor, each function proved against `isa.rs`.
- `src/test_bus.rs`: a bus that is plain 64 KiB RAM, used to run programs.
- `src/console.rs`: the console, a processor together with its bus.

Implemented instructions: LDA, LDX, LDY and STA in all their official
addressing modes.
