use rustux::device::{HidKeyboardInfo, UsbDeviceState};
use rustux::fmt::{dec_digits, hex_byte, hex_fixed};
use rustux::filesystem::EmbeddedFileSystem;
use rustux::hid::{poll_keyboard, HidKeyState};
use rustux::pci::{scan_for_usb_controller, PciUsbCandidate};
use rustux::runtime::{
    boot_heap_start, BootHeapError, BumpAllocator, IdtEntry, KernelRuntime, MemoryDescriptor,
};
use rustux::shell::{cmd_echo, command_at, command_name, find_command, shell_dispatch, ShellAction, ShellCommand, COMMAND_COUNT};
use rustux::usb::{
    after_ehci_init, after_enumeration, after_xhci_init, controller_base_line, init_outcome,
    is_keyboard_available, UsbControllerType, UsbError, UsbInitStep, STATUS_GREEN, STATUS_ORANGE,
    STATUS_RED, STATUS_YELLOW,
};
use rustux::vga_console::VgaConsole;

fn keyboard() -> HidKeyboardInfo {
    HidKeyboardInfo { slot_id: 1, endpoint_addr: 0x81, max_packet: 8, interval: 10 }
}

#[test]
fn usb_bring_up_prefers_xhci() {
    assert!(matches!(after_xhci_init(Ok(())), UsbInitStep::Ready(UsbControllerType::Xhci)));
    assert!(matches!(after_xhci_init(Err(UsbError::XhciNotFound)), UsbInitStep::TryEhci));
    match after_xhci_init(Err(UsbError::Timeout)) {
        UsbInitStep::Failed(m, c) => {
            assert_eq!(m, "xHCI initialization failed");
            assert_eq!(c, STATUS_RED);
        }
        other => panic!("unexpected step {:?}", other),
    }
    assert!(matches!(after_ehci_init(Ok(())), UsbInitStep::Ready(UsbControllerType::Ehci)));
}

#[test]
fn usb_bring_up_outcomes() {
    let found = Ok((1usize, keyboard()));
    assert_eq!(init_outcome(Ok(()), Err(UsbError::EhciNotFound), true, found), (Ok(()), STATUS_GREEN));
    assert_eq!(
        init_outcome(Err(UsbError::XhciNotFound), Ok(()), true, found),
        (Ok(()), STATUS_GREEN)
    );
    assert_eq!(
        init_outcome(Err(UsbError::XhciNotFound), Err(UsbError::EhciNotFound), true, found),
        (Err("No USB controller found (neither xHCI nor EHCI)"), STATUS_YELLOW)
    );
    assert_eq!(
        init_outcome(Err(UsbError::XhciNotFound), Err(UsbError::EhciInitFailed), true, found),
        (Err("EHCI initialization failed"), STATUS_RED)
    );
    assert_eq!(init_outcome(Ok(()), Ok(()), false, found), (Err("Controller not running"), STATUS_RED));
    assert_eq!(
        init_outcome(Ok(()), Ok(()), true, Err(UsbError::DeviceNotFound)),
        (Err("No USB device found"), STATUS_ORANGE)
    );
    assert_eq!(
        after_enumeration(Err(UsbError::HidKeyboardNotFound)),
        (Err("No HID keyboard found"), STATUS_ORANGE)
    );
    assert_eq!(after_enumeration(Err(UsbError::Timeout)), (Err("USB enumeration failed"), STATUS_RED));
}

#[test]
fn usb_controller_line_shows_base_in_hex() {
    assert_eq!(controller_base_line(UsbControllerType::Xhci, 0xFEBF_0000), b"xHCI: MMIO base = 0xFEBF0000\n".to_vec());
    assert_eq!(controller_base_line(UsbControllerType::Ehci, 0x1_0000_00AB), b"EHCI: MMIO base = 0x000000AB\n".to_vec());
}

#[test]
fn usb_keyboard_poll() {
    let mut device = UsbDeviceState::new();
    let mut keys = HidKeyState::new();
    let report = [0u8, 0, 0x05, 0, 0, 0, 0, 0];
    assert_eq!(poll_keyboard(true, &device, &mut keys, 8, &report), None);
    assert!(!is_keyboard_available(true, &device));
    device.hid_keyboard = Some(keyboard());
    assert!(is_keyboard_available(true, &device));
    assert!(!is_keyboard_available(false, &device));
    assert_eq!(poll_keyboard(true, &device, &mut keys, 0, &report), None);
    assert_eq!(poll_keyboard(true, &device, &mut keys, 8, &report), Some('b'));
    assert_eq!(poll_keyboard(true, &device, &mut keys, 8, &report), None);
    let shifted = [0x20u8, 0, 0x05, 0x06, 0, 0, 0, 0];
    assert_eq!(poll_keyboard(true, &device, &mut keys, 8, &shifted), Some('C'));
}

#[test]
fn pci_scan_prefers_first_xhci() {
    let cands = vec![
        PciUsbCandidate { bus: 0, device: 1, function: 0, prog_if: 0x20, mmio_base: Some(0x1000) },
        PciUsbCandidate { bus: 0, device: 2, function: 0, prog_if: 0x30, mmio_base: None },
        PciUsbCandidate { bus: 0, device: 3, function: 0, prog_if: 0x30, mmio_base: Some(0x3000) },
        PciUsbCandidate { bus: 0, device: 4, function: 0, prog_if: 0x30, mmio_base: Some(0x4000) },
    ];
    assert_eq!(scan_for_usb_controller(&cands), Ok((UsbControllerType::Xhci, 0x3000)));
    let ehci_only = vec![
        PciUsbCandidate { bus: 0, device: 1, function: 0, prog_if: 0x20, mmio_base: Some(0x1000) },
        PciUsbCandidate { bus: 0, device: 2, function: 0, prog_if: 0x20, mmio_base: Some(0x2000) },
    ];
    assert_eq!(scan_for_usb_controller(&ehci_only), Ok((UsbControllerType::Ehci, 0x2000)));
    assert_eq!(scan_for_usb_controller(&Vec::new()), Err(UsbError::XhciNotFound));
}

#[test]
fn bump_allocations_are_aligned_and_disjoint() {
    let mut heap = BumpAllocator::new(0x1001, 0x100);
    let a = heap.allocate(0x10, 16).unwrap();
    let b = heap.allocate(0x20, 64).unwrap();
    assert_eq!(a, 0x1010);
    assert_eq!(b, 0x1040);
    assert!(a + 0x10 <= b);
    assert_eq!(heap.allocate(0x1000, 8), None);
    assert_eq!(heap.available(), 0x1101 - 0x1060);
}

#[test]
fn idt_entry_keeps_its_handler() {
    let handler = 0x1234_5678_9ABC_DEF0u64;
    let e = IdtEntry::new(handler, 0x38, 0x8E);
    let back = (e.offset_low as u64) | ((e.offset_mid as u64) << 16) | ((e.offset_high as u64) << 32);
    assert_eq!(back, handler);
    assert_eq!(e.selector, 0x38);
    assert_eq!(e.type_attr, 0x8E);
}

fn descriptor(start: u64, pages: u64, ty: u32) -> MemoryDescriptor {
    MemoryDescriptor { physical_start: start, number_of_pages: pages, memory_type: ty, attribute: 0 }
}

#[test]
fn boot_heap_goes_to_largest_conventional_region() {
    let map = vec![
        descriptor(0x1000, 100, 7),
        descriptor(0x10_0000, 300, 7),
        descriptor(0x20_0000, 900, 3),
        descriptor(0x40_0000, 300, 7),
    ];
    assert_eq!(boot_heap_start(&map), Ok(0x10_0000));
    assert_eq!(boot_heap_start(&vec![descriptor(0x1000, 10, 7)]), Err(BootHeapError::NotEnoughMemory));
    assert_eq!(boot_heap_start(&vec![descriptor(0x1000, 10, 3)]), Err(BootHeapError::NoConventionalMemory));
}

#[test]
fn every_command_is_found_by_its_name() {
    for i in 0..COMMAND_COUNT {
        let c = command_at(i);
        assert_eq!(find_command(command_name(c)), Some(c));
    }
    assert_eq!(find_command(b"reboot"), None);
}

#[test]
fn shell_dispatch_and_echo() {
    let line = b"  echo hello   world ";
    let (words, action) = shell_dispatch(line);
    assert_eq!(action, ShellAction::Run(ShellCommand::Echo));
    assert_eq!(words, vec![(2, 6), (7, 12), (15, 20)]);
    assert_eq!(cmd_echo(line, &words), b"hello world".to_vec());
    assert_eq!(shell_dispatch(b"   ").1, ShellAction::Empty);
    assert_eq!(shell_dispatch(b"frob x").1, ShellAction::Unknown);
}

#[test]
fn hex_and_decimal_digits() {
    assert_eq!(hex_byte(0xA7), (b'A', b'7'));
    assert_eq!(hex_fixed(0xBEEF, 8), b"0000BEEF".to_vec());
    assert_eq!(dec_digits(0), b"0".to_vec());
    assert_eq!(dec_digits(40213), b"40213".to_vec());
}

#[test]
fn vga_puts_twice_is_puts_of_the_concatenation() {
    let mut a = VgaConsole::init();
    a.puts("ab\ncd");
    a.puts("ef");
    let mut b = VgaConsole::init();
    b.puts("ab\ncdef");
    assert_eq!(a.get_cursor(), b.get_cursor());
    assert_eq!(a.get_cursor(), (1, 4));
    assert_eq!(a.cells, b.cells);
}

#[test]
fn filesystem_lists_and_reads_programs() {
    let fs = EmbeddedFileSystem::new();
    assert_eq!(fs.list(), vec!["echo", "hello", "test", "version"]);
    assert!(fs.file_exists("/bin/hello"));
    assert!(fs.read("hello").unwrap().is_executable);
    assert_eq!(fs.read("hello").unwrap().data.len(), 4096);
    assert!(!fs.file_exists("/bin/missing"));
}

#[test]
fn executing_built_in_programs() {
    let fs = EmbeddedFileSystem::new();
    let mut rt = KernelRuntime::new(vec![descriptor(0x20_0000, 1024, 7)], 0, 0);
    assert!(matches!(rt.execute(Some(&fs), "/bin/missing"), Err("File not found")));
    assert!(matches!(rt.execute(None, "hello"), Err("Filesystem not initialized")));
    assert_eq!(rt.next_pid, 1);
    // The hello image declares no program headers: nothing to place, the
    // entry point is e_entry (0x100000) past the page-aligned free region,
    // and the empty span wraps to 1.
    let (process, binary, segments) = rt.execute(Some(&fs), "/bin/hello").unwrap();
    assert_eq!(process.pid, 1);
    assert_eq!(process.name, "/bin/hello");
    assert_eq!(binary.base_address, 0x20_0000);
    assert_eq!(binary.entry_point, 0x30_0000);
    assert_eq!(binary.size, 1);
    assert!(segments.is_empty());
    assert_eq!(rt.next_pid, 2);
    // echo carries hello's headers and code with its own message.
    let (process, binary, _) = rt.execute(Some(&fs), "echo").unwrap();
    assert_eq!(process.pid, 2);
    assert_eq!(binary.entry_point, 0x30_0000);
    assert_eq!(rt.next_pid, 3);
}
