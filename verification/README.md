# gb_emulator

A Game Boy (DMG) emulator whose core is written in Verus: every part of the
machine is an executable Rust function with a `requires`/`ensures` contract
stated over a mathematical model, and Verus proves the code meets it.

## Layout

- `src/cpu/` — registers and flags, the ALU, the instruction set (with the
  CB-prefixed page), interrupt dispatch, and one CPU step as a function of
  the CPU state and the bus model.
- `src/memory/` — the `Bus` trait, a flat RAM bus for driving the CPU on its
  own, the DMG memory map (`Mmu`), and cartridges with their mappers
  (ROM only, MBC1, MBC3).
- `src/ppu/` — the LCD controller: mode timing, STAT interrupts, and
  background, window and sprite rendering.
- `src/timer/`, `src/joypad/` — DIV/TIMA and JOYP.
- `src/apu/` — the four sound channels, the frame sequencer and sample
  mixing (as integer levels; `FULL_SCALE` is full scale).
- `src/emulator.rs` — the whole machine stepped in lockstep, and the two run
  loops (one video frame; a headless run for serial-reporting test ROMs).
- `tests/` — behaviour tests for each part.
- `app/` — the front-end: command line, files, the window, trace printing and
  the audio backend.

Public proof functions named `law_*` state properties that hold across
operations (read-after-write, push/pop, the EI delay, power cycling of the
APU, the sample rate, and so on).
