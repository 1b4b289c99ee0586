//! Verified core of the Rustux transition kernel: the data structures,
//! decoders and state machines that the kernel drives from its hardware
//! glue.

pub mod bits;
pub mod keyboard;
pub mod hid;
pub mod fmt;
pub mod usb;
pub mod usb_report;
pub mod trb;
pub mod dma;
pub mod device;
pub mod xhci;
pub mod poll;
pub mod ehci;
pub mod pci;
pub mod bytes;
pub mod runtime;
pub mod efi;
pub mod elf;
pub mod filesystem;
pub mod loader;
pub mod vga_console;
pub mod gfxconsole;
pub mod native_console;
pub mod shell;
pub mod shell_report;
pub mod syscall;
pub mod mouse;
pub mod acpi;
pub mod apic;
pub mod framebuffer;
pub mod console;
pub mod theme;
