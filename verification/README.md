# tifflin_modules

Device-driver logic of a small hobby kernel's loadable modules, written in
Verus: every function in `src/` carries a contract that Verus proves.

Layout of `src/`:

- `usb_core` - descriptors and their parsing, device requests, address
  allocation, hub status decoding, the port-initialisation state machine.
- `usb_ohci`, `usb_ehci`, `usb_xhci` - the host-controller drivers: register
  decoding, descriptor pools and their invariants, transfer chains, command
  and event rings, interrupt decoding.
- `usb_hid` - HID report-descriptor parsing and the keyboard/mouse sinks.
- `usb_msc` - bulk-only mass-storage wrappers and their checks.
- `virtio` - queue layout and descriptor management, device discovery on
  MMIO and PCI, block/input/GPU request encoding.
- `vfs` - paths and the read-only initial RAM disk.
- `video_vga` - the CRT controller register file.
- `utf16` - UTF-16 validation, decoding and WTF-8 encoding.
- `bits` - shared bit-vector lemmas.

Laws that relate several operations are public proof functions next to the
operations they speak of (names start with `lemma_`).

`app/` holds what cannot be verified: port and register access, physical
address lookups, controller bring-up and command submission sequences, the
PCI capability walk, and the interrupt loops that hand what the hardware
reports to the library. `tests/` exercises the library on concrete values.
