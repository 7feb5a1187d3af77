# faces_pfm

A verified page frame manager for kernels booted by the Limine protocol.

- `src/flags.rs`: `PageFlags`, the 16-bit word of per-frame status flags.
- `src/frame.rs`: `PageFrame`, the metadata record kept for each frame.
- `src/memmap.rs`: the bootloader memory map as plain entries, with the
  specifications of totals, candidate regions and frame coverage.
- `src/mgr.rs`: `PageFrameManager`, the frame table: building it from the
  memory map, setting, clearing and testing flags, and access to records,
  together with the proved laws that relate these operations.
- `app/`: the kernel-side glue (global lock, Limine request, `faces` traits).
