use rustux::device::{
    get_descriptor_setup_packet, set_address_setup_packet, UsbSetupPacket, HID_REPORT_SIZE,
    USB_DT_DEVICE, USB_REQ_GET_DESCRIPTOR, USB_REQ_SET_ADDRESS,
};
use rustux::dma::{command_ring_aligned, dcbaa_aligned, erst_aligned, event_ring_aligned};
use rustux::hid::{parse_keyboard_report, HidKeyState, KeyboardReport, MODIFIER_LEFT_SHIFT};
use rustux::pci::{PCI_CLASS_SERIAL_BUS, PCI_PROG_IF_XHCI, PCI_SUBCLASS_USB};
use rustux::runtime::BumpAllocator;
use rustux::{ehci, xhci};
use rustux::trb::{EventTrb, LinkTrb, NormalTrb, SetupTrb, StatusTrb, TRB_RING_SIZE};

#[test]
fn test_setup_packet_size() {
    assert_eq!(core::mem::size_of::<UsbSetupPacket>(), 8);
}

#[test]
fn test_get_descriptor_setup() {
    let setup = get_descriptor_setup_packet(USB_DT_DEVICE, 0, 18);
    assert_eq!(setup.bm_request_type, 0x80);
    assert_eq!(setup.b_request, USB_REQ_GET_DESCRIPTOR);
    assert_eq!(setup.w_value, 0x0100);
    assert_eq!(setup.w_length, 18);
}

#[test]
fn test_set_address_setup() {
    let setup = set_address_setup_packet(5);
    assert_eq!(setup.bm_request_type, 0x00);
    assert_eq!(setup.b_request, USB_REQ_SET_ADDRESS);
    assert_eq!(setup.w_value, 5);
    assert_eq!(setup.w_length, 0);
}

#[test]
fn test_hid_report_size() {
    assert_eq!(HID_REPORT_SIZE, 8);
}

#[test]
fn test_alignments() {
    // The rings live in 64-byte aligned storage; lay them out as the
    // allocator places 64-byte aligned blocks.
    let mut heap = BumpAllocator::new(0x10_0008, 0x1_0000);
    let command_ring = heap.allocate(16 * 16, 64).unwrap();
    let event_ring = heap.allocate(16 * 16, 64).unwrap();
    let erst = heap.allocate(16, 64).unwrap();
    let dcbaa = heap.allocate(8 * 256, 64).unwrap();
    assert!(command_ring_aligned(command_ring));
    assert!(event_ring_aligned(event_ring));
    assert!(erst_aligned(erst));
    assert!(dcbaa_aligned(dcbaa));
}

#[test]
fn dma_test_ring_sizes() {
    assert_eq!(TRB_RING_SIZE, 16);
    assert_eq!(core::mem::size_of::<NormalTrb>(), 16);
    assert_eq!(core::mem::size_of::<EventTrb>(), 16);
}

#[test]
fn ehci_test_constants() {
    assert_eq!(ehci::USBCMD_RUN, 0x0000_0001);
    assert_eq!(ehci::USBCMD_HCRST, 0x0000_0002);
    assert_eq!(ehci::USBSTS_HCH, 0x0000_1000);
}

#[test]
fn test_keyboard_report_size() {
    assert_eq!(core::mem::size_of::<KeyboardReport>(), 8);
}

#[test]
fn test_parse_simple_key() {
    let mut state = HidKeyState::new();
    let report = KeyboardReport { modifier: 0, reserved: 0, keycodes: [0x04, 0, 0, 0, 0, 0] };
    let result = parse_keyboard_report(&mut state, &report);
    assert_eq!(result, Some('a'));
}

#[test]
fn test_parse_shifted_key() {
    let mut state = HidKeyState::new();
    let report = KeyboardReport {
        modifier: MODIFIER_LEFT_SHIFT,
        reserved: 0,
        keycodes: [0x04, 0, 0, 0, 0, 0],
    };
    let result = parse_keyboard_report(&mut state, &report);
    assert_eq!(result, Some('A'));
}

#[test]
fn test_key_repeat_detection() {
    let mut state = HidKeyState::new();
    let report = KeyboardReport { modifier: 0, reserved: 0, keycodes: [0x04, 0, 0, 0, 0, 0] };
    let result1 = parse_keyboard_report(&mut state, &report);
    assert_eq!(result1, Some('a'));
    let result2 = parse_keyboard_report(&mut state, &report);
    assert_eq!(result2, None);
}

#[test]
fn test_pci_constants() {
    assert_eq!(PCI_CLASS_SERIAL_BUS, 0x0C);
    assert_eq!(PCI_SUBCLASS_USB, 0x03);
    assert_eq!(PCI_PROG_IF_XHCI, 0x30);
}

#[test]
fn test_trb_sizes() {
    assert_eq!(core::mem::size_of::<NormalTrb>(), 16);
    assert_eq!(core::mem::size_of::<SetupTrb>(), 16);
    assert_eq!(core::mem::size_of::<StatusTrb>(), 16);
    assert_eq!(core::mem::size_of::<LinkTrb>(), 16);
    assert_eq!(core::mem::size_of::<EventTrb>(), 16);
}

#[test]
fn xhci_test_constants() {
    assert_eq!(xhci::USBCMD_RUN, 0x0000_0001);
    assert_eq!(xhci::USBCMD_HCRST, 0x0000_0002);
    assert_eq!(xhci::USBSTS_HCH, 0x0000_1000);
    assert_eq!(xhci::USBSTS_CNR, 0x0000_0800);
}

#[test]
fn xhci_test_ring_sizes() {
    assert_eq!(TRB_RING_SIZE, 16);
    assert_eq!(core::mem::size_of::<NormalTrb>(), 16);
    assert_eq!(core::mem::size_of::<EventTrb>(), 16);
}
