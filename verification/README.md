# i8080

An Intel 8080 emulator core, verified with Verus, together with the memory
maps and the I/O board of the Space Invaders and Balloon Bombers arcade
machines.

## Layout

- `src/` — the verified library.
  - `instruction.rs`: the instruction set, decoding from bytes, sizes, cycle
    counts and a disassembler; `decoded` states the encoding as a function of
    the opcode's bit fields.
  - `model.rs`: the mathematical model of the processor (`CpuState`) and the
    effect of every instruction (`step`).
  - `cpu.rs`: the executable processor; `Cpu::execute` is proved to follow
    `step` exactly.
  - `registers.rs`, `condition_codes.rs`: registers, register pairs and the
    flags, with the PSW byte encoding.
  - `memory_bus.rs`, `invaders_memory.rs`, `balloon_memory.rs`,
    `test_memory.rs`: memory maps (ROM, RAM, video RAM, mirrors).
  - `machine.rs`, `invaders_io.rs`: I/O ports and the Space Invaders shift
    register and controls.
  - `display.rs`: which pixels the video RAM lights, and in which colour.
  - `laws.rs`: properties that span several instructions (what one undoes of
    another, what each leaves unchanged).
- `tests/` — tests on concrete values.
- `app/` — the command-line program: file reading, SDL window, sound and
  keyboard.
