# rustnes

A cycle-stepped NES emulator core whose logic is verified with Verus.

- `src/mos`: the RP2A03 (6502) CPU, one bus cycle per `tick`, with every
  cycle of every opcode given a contract; the instruction operations (ADC,
  SBC, ARR, ...) are specified against integer arithmetic.
- `src/nes`: the rest of the console.
  - `paging`: banked address translation used by the cartridge boards.
  - `rom`: iNES images, parsed by the `nes_rom` crate.
  - `mappers`: the cartridge boards (NROM, MMC1, CNROM and two test
    boards) and the memory they map.
  - `ppu`: the RP2C02 picture processing unit, its registers, rendering
    pipeline, sprite units and CPU-facing ports.
  - `controllers`, `dma`, `bus`: joypads, OAM/DMC DMA and the CPU bus.
  - `consoles`: the NTSC console that runs frame by frame.
  - `utils`, `palette`, `ppu_viewer`, `nes_ntsc`: timing, tracing and
    debugging helpers, and the integer side of colour output.
- `tests/`: behavioural tests of the library.
- `app/`: a `minifb` window front end (`rustnes <rom.nes>`), the
  floating-point palette generation and the trace file output.
