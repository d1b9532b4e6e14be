# r_ps1

The core of a PlayStation emulator as a library whose behaviour is stated in Verus contracts
and proved: the R3000A CPU with its instruction cache, write queue, COP0 and the GTE, main
memory, the segments and sections of the address space, the system bus (RAM mirrors,
scratchpad, BIOS ROM, expansion regions, cache control, user/kernel access, and the I/O
registers of the devices behind it, each read and write dispatched to its device), the DMA
controller, the interrupt controller registers (I_STAT, I_MASK and the
COP0 interrupt line), the event clock, the serial port with pads and memory cards, the
CD-ROM controller (registers, command machinery, disc images described by CUE sheets,
ISO 9660 lookup of `SYSTEM.CNF`), the GPU (the GP0 word protocol, VRAM transfers, lines,
rectangles, textures, the polygon command, GPUSTAT, the raster line events), cheats, the
debugger's command language, configuration and BIOS identification.

Layout:

- `src/` the verified library, one module per component (`cpu/`, `memory/`, `dma.rs`,
  `cdrom/`, `gpu/`, `controllers/`, `sio.rs`, `clock.rs`, ...).
- `tests/` tests of the library on concrete values.
- `app/` the program around it: command line, files, the debugger console, configuration
  files (serde types with conversions to the library's own), and triangle rasterisation,
  which interpolates in floating point.

Outside crates: `md5` (BIOS identification) and `regex` (the boot line of `SYSTEM.CNF`) are
called from the library through small trusted wrappers; `serde` and `serde_yaml` are used by
`app/` only.
