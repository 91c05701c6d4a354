# rust_boy_classic

A verified core for an early-stage original Game Boy (DMG) emulator.

- `src/cartridge.rs`: cartridge header parsing. `Cartridge::from_bytes` accepts
  exactly the 32 KiB ROM ONLY images without external RAM; every refusal is
  given by `parse_error`, and an accepted cartridge keeps its bytes unchanged.
- `src/bus.rs`: the CPU-visible memory bus (cartridge ROM, work RAM and its
  echo, high RAM, placeholders for unfinished devices), specified by
  `BusView::read` and `BusView::write`, with the read-over-write and echo
  laws proved.
- `app/`: the command-line program that loads a ROM file and prints its
  metadata, and the stderr diagnostics for placeholder regions.
