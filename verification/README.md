# NES emulator

A NES emulator whose logic is a verified library. Contracts in the source say
what each function returns and changes, and [Verus](https://github.com/verus-lang/verus)
proves them; around the library stands a small front end in ordinary Rust.

## Layout

- `src/` is the library.
  - `cartridge`, `region`: image files and console families
  - `mapper/`: NROM, MMC1, UxROM, CNROM, MMC3, AxROM, MMC2 and GxROM, and the
    battery memory's save data
  - `cpu/`, `opcodes`: the processor
  - `ppu/`, `render/`, `joypad`, `apu/`: the picture unit, frames and tiles, the
    controller, the sound channels
  - `bus/`: the machine: memory map, clocks, both kinds of DMA, snapshots
  - `session`, `menu/`, `options`: a game's keys, frame clock and run-ahead, the
    selection screen, the command line
  - `audio`, `pump`: latency settings, the stall watchdog, feeding and pacing
  - `probe/`, `test_rom`: headless runs and test programs
  - `text`: reading and writing numbers and lists
- `tests/` runs the library on concrete values.
- `app/` is the front end: windows, audio streams, files, threads, and whatever
  needs floating point (the mixer and its filters, the clock correction).

## How it is stated

Every device has a model: a plain value that its `view` or `model` gives. Spec
functions over models say what an access, a cycle or an instruction does, and
the `ensures` of the executable functions are equalities over them. Files
named `model.rs` hold the models; properties that span several functions are
public proof functions, most of them in the files named `laws.rs`, and in
`cpu/host.rs`, `cpu/budget.rs`, `bus/delivery.rs`, `bus/collision.rs` and
`apu/lfsr.rs`.

What the host does at the start of vblank is set beforehand, as a hook on the
bus: which buttons to hold from then on, and whether to hand over the samples
that fill no chunk. The bus keeps its figures of that moment as a mark.

Audio leaves the library as the five channels' levels, sampled at exact integer
phases. Times are in nanoseconds.
