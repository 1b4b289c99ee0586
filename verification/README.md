# rustux

The verified core of the Rustux UEFI kernel and boot loader, written in
Verus.

- `src/` is the library. Every function has a contract that Verus
  proves. The library holds the kernel's data structures, decoders and
  decisions: the keyboard input buffer and the PS/2 and USB HID decoders,
  the USB stack (PCI scan, xHCI/EHCI register plans, TRB rings,
  enumeration), the ACPI and ELF/PE parsers, the memory map coalescing, the
  bump allocator and IDT layout, the consoles (VGA text, GOP framebuffer,
  graphics, serial), the shell and the system call handlers.
- `app/` is the kernel's entry point and hardware glue: firmware calls,
  port and MMIO access, interrupt stubs, the shell loop, the reads of the
  ACPI tables, the APIC bring-up and the boot loader's image loading. It
  performs what the library decides.
- `tests/` exercises the library on concrete values.

Hardware and firmware access that only computes on plain values goes
through a few trusted wrappers in `src/`. Each one has a doc comment that
says what its contract claims of the outside function it calls.
