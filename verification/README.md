# gameboy

A Game Boy (DMG) emulator core whose behaviour is stated in contracts and
proved with Verus.

## Layout

- `src/cpu/`: the SM83 CPU. `spec.rs` states what every opcode does to the
  machine (`execute_spec`), `ops_low.rs`, `ops_high.rs`, `ops_cb.rs` and
  `alu.rs` implement it, `registers.rs` holds the register file (F keeps its
  low nibble clear), `timer.rs` the divider and TIMA, and `laws.rs` the laws
  that span instructions (machine cycles per instruction, PUSH/POP).
- `src/mmu.rs`: the memory map, with OAM DMA, serial output and the laws of
  work RAM, echo RAM and DMA.
- `src/cartridge.rs`: ROM-only, MBC1 and MBC3 cartridges.
- `src/ppu.rs`: the scanline renderer and LCD state machine.
- `src/input.rs`: the joypad register.
- `src/apu.rs`: the audio unit's control registers.
- `src/emulator.rs`: the machine as a whole, the cartridge picked from the
  ROM header, and battery saves of cartridge RAM.
- `src/ram.rs`, `src/timer.rs`, `src/gpu.rs`: a flat memory map with its own
  timer and a whole-frame renderer.
- `tests/`: tests on concrete values.
- `app/`: the SDL front end: window, keyboard, main loop and save files.
