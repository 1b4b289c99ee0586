use rustux::device::{pending_transfer_event, HidKeyboardInfo, UsbDeviceState};
use rustux::filesystem::{create_echo_elf, create_hello_elf, create_test_elf, create_version_elf, EmbeddedFileSystem, FileEntry};
use rustux::hid::keycode_to_ascii;
use rustux::pci::devices_on_bus;
use rustux::runtime::{KernelRuntime, MemoryDescriptor, UefiServices};
use rustux::trb::EventTrb;
use rustux::xhci::TransferRing;
use rustux::trb::NormalTrb;

#[test]
fn hid_usage_ids_translate_on_a_us_layout() {
    assert_eq!(keycode_to_ascii(0x04, 0), b'a');
    assert_eq!(keycode_to_ascii(0x1D, 0), b'z');
    assert_eq!(keycode_to_ascii(0x1E, 0), b'1');
    assert_eq!(keycode_to_ascii(0x27, 0), b'0');
    assert_eq!(keycode_to_ascii(0x1E, 0x02), b'!');
    assert_eq!(keycode_to_ascii(0x27, 0x20), b')');
    assert_eq!(keycode_to_ascii(0x28, 0), b'\n');
    assert_eq!(keycode_to_ascii(0x29, 0), 0x1B);
    assert_eq!(keycode_to_ascii(0x2A, 0), 0x08);
    assert_eq!(keycode_to_ascii(0x2B, 0), b'\t');
    assert_eq!(keycode_to_ascii(0x2C, 0), b' ');
    assert_eq!(keycode_to_ascii(0x2D, 0), b'-');
    assert_eq!(keycode_to_ascii(0x2D, 0x20), b'_');
    assert_eq!(keycode_to_ascii(0x33, 0x02), b':');
    assert_eq!(keycode_to_ascii(0x38, 0), b'/');
    assert_eq!(keycode_to_ascii(0x54, 0), b'/');
    assert_eq!(keycode_to_ascii(0x59, 0), b'1');
    assert_eq!(keycode_to_ascii(0x62, 0), b'0');
    assert_eq!(keycode_to_ascii(0x3A, 0), 0);
}

#[test]
fn outstanding_transfer_length_is_capped() {
    let mut state = UsbDeviceState::new();
    state.hid_keyboard = Some(HidKeyboardInfo { slot_id: 1, endpoint_addr: 0x81, max_packet: 8, interval: 10 });
    state.transfer_active = true;
    let long = EventTrb { trb_ptr: 0, status: 0x0100_0064, control: 0x8000 };
    assert_eq!(pending_transfer_event(&mut state, Some(long)), 8);
    assert!(!state.transfer_active);
    state.transfer_active = true;
    let short = EventTrb { trb_ptr: 0, status: 0x0100_0005, control: 0x8000 };
    assert_eq!(pending_transfer_event(&mut state, Some(short)), 5);
    state.transfer_active = true;
    let failed = EventTrb { trb_ptr: 0, status: 0x0400_0008, control: 0x8000 };
    assert_eq!(pending_transfer_event(&mut state, Some(failed)), 0);
    state.transfer_active = true;
    assert_eq!(pending_transfer_event(&mut state, None), 0);
    assert!(state.transfer_active);
}

#[test]
fn derived_images_keep_the_elf_headers() {
    let hello = create_hello_elf();
    for (image, message) in [
        (create_echo_elf(), &b"Echo: arguments not yet implemented\n"[..]),
        (create_test_elf(), &b"Test: All systems operational\n"[..]),
        (create_version_elf(), &b"Userspace Program v1.0.0\n"[..]),
    ] {
        assert_eq!(image.len(), 4096);
        assert_eq!(&image[..4], b"\x7fELF");
        assert_eq!(&image[..202], &hello[..202]);
        assert_eq!(&image[202..202 + message.len()], message);
        assert!(image[202 + message.len()..].iter().all(|&b| b == 0));
    }
    assert_eq!(&hello[202..224], b"Hello from userspace!\n");
}

#[test]
fn pci_scan_covers_every_device_number() {
    assert_eq!(devices_on_bus(0), 32);
    assert_eq!(devices_on_bus(1), 32);
    assert_eq!(devices_on_bus(255), 32);
}

#[test]
fn creating_a_process_changes_only_the_next_pid() {
    let map = vec![MemoryDescriptor { physical_start: 0x10_0000, number_of_pages: 512, memory_type: 7, attribute: 0 }];
    let mut rt = KernelRuntime::new(map, 48, 7);
    rt.init_scheduler();
    let p1 = rt.create_process("/bin/hello", 0x30_0000, 0x20_0000);
    let p2 = rt.create_process("/bin/echo", 0x40_0000, 0x30_0000);
    assert_eq!((p1.pid, p2.pid), (1, 2));
    assert_eq!(p1.name, "/bin/hello");
    assert_eq!((p1.entry_point, p1.base_address), (0x30_0000, 0x20_0000));
    assert_eq!(rt.next_pid, 3);
    assert_eq!((rt.map_size, rt.map_key), (48, 7));
    assert!(rt.exited_boot_services);
    assert!(rt.scheduler.is_some());
    assert_eq!(rt.memory_map.len(), 1);
}

#[test]
fn uefi_services_stay_disabled() {
    let mut services = UefiServices::new();
    services.set_uefi_system_table(0x7000_0000);
    assert_eq!(services.get_uefi_system_table(), Some(0x7000_0000));
    assert_eq!(services.disable_uefi_services_permanently(), Ok(()));
    assert!(services.is_uefi_disabled());
    assert_eq!(services.get_uefi_system_table(), None);
    assert_eq!(services.disable_uefi_services_permanently(), Ok(()));
    services.set_uefi_system_table(0x7000_0000);
    assert_eq!(services.get_uefi_system_table(), None);
}

#[test]
fn enqueue_pointer_follows_the_ring() {
    let mut ring = TransferRing::new();
    assert_eq!(ring.enqueue_ptr(0x8000), 0x8000);
    let trb = NormalTrb { data_ptr: 0, status: 0, control: 0x400 };
    ring.enqueue(&trb).unwrap();
    ring.enqueue(&trb).unwrap();
    assert_eq!(ring.enqueue_ptr(0x8000), 0x8020);
}

#[test]
fn read_looks_only_at_the_last_component() {
    let fs = EmbeddedFileSystem::new();
    assert_eq!(fs.read("/bin/hello").unwrap().name, "hello");
    assert_eq!(fs.read("a/b/hello").unwrap().name, "hello");
    assert!(fs.read("hello/").is_none());
    assert!(fs.read("cat").is_none());
    let twice = EmbeddedFileSystem {
        files: vec![
            FileEntry { name: "x".to_string(), data: vec![1], is_executable: false },
            FileEntry { name: "x".to_string(), data: vec![2], is_executable: true },
        ],
    };
    assert_eq!(twice.read("/x").unwrap().data, vec![1]);
}
