# crabboy

A Game Boy emulator core whose behaviour is stated in Verus contracts and
proved: the Sharp LR35902 CPU, the memory map, the cartridge memory bank
controllers (none, MBC1, MBC3, MBC5, with battery-backed RAM), the picture
processing unit, the timer, the joypad and the sound registers.

Layout:

- `src/bits.rs` — byte, word and flag arithmetic.
- `src/cpu/` — the CPU: `isa.rs` states each instruction as a transformer of
  `CpuState`, `decode.rs` the opcode table and interrupt entry, `instructions.rs`
  the instructions themselves, `mod.rs` the CPU and its dispatch.
- `src/mmu.rs` — the memory map, modelled by `MemState`.
- `src/mbc.rs`, `src/cartridge.rs` — cartridges and their controllers.
- `src/ppu.rs`, `src/timer.rs`, `src/joypad.rs`, `src/apu.rs`, `src/bootrom.rs` —
  the devices.
- `src/emulator.rs` — the console, stepped instruction by instruction until a
  frame is finished; a step that cannot complete reports an `EmulationFault`.
- `src/api.rs` — the calls a front end makes (load, run a frame, buttons,
  unload with the saved RAM).
- `app/main.rs` — the front end: the console behind a lock, and a start from a
  cartridge file.

Each module holds, as public proof functions named `law_…`, the properties
that relate its operations (reads give back writes, a push is popped back, a
call returns, a loaded save is unloaded unchanged, and so on).
