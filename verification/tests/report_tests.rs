use rustux::mouse::MouseDriver;
use rustux::pci::dump_pci_device;
use rustux::shell_report::{cmd_irq, cmd_kbd_report, cmd_pic, KbdTestOutcome};
use rustux::trb::EventTrb;
use rustux::usb_report::{dump_device_descriptor, dump_event_trb, dump_portsc};

fn text(v: Vec<u8>) -> String {
    String::from_utf8(v).unwrap()
}

#[test]
fn pic_report_shows_irq1_state() {
    let out = text(cmd_pic((0xFD, 0x02, 0x00), (0xFF, 0x00, 0x10)));
    assert_eq!(
        out,
        "PIC Configuration:\n  PIC1 (IRQ 0-7):\n    Mask: 11111101 (0xFD) (IRQ1 enabled)\n    IRR:  00000010 (0x02) (IRQ1 pending)\n    ISR:  00000000 (0x00) (no IRQ1 active)\n  PIC2 (IRQ 8-15):\n    Mask: 11111111 (0xFF)\n    IRR:  00000000 (0x00)\n    ISR:  00010000 (0x10)\n"
    );
    let masked = text(cmd_pic((0xFF, 0x00, 0x02), (0, 0, 0)));
    assert!(masked.contains("(IRQ1 DISABLED!)"));
    assert!(masked.contains("(no IRQ1)"));
    assert!(masked.contains("(IRQ1 in-service)"));
}

#[test]
fn irq_report_counts() {
    assert_eq!(text(cmd_irq(0)), "Keyboard IRQ Debug Info:\n  IRQ count: 0 (IRQ NOT firing!)\n");
    assert_eq!(text(cmd_irq(7)), "Keyboard IRQ Debug Info:\n  IRQ count: (IRQs firing!)\n  Count: 7\n");
    assert_eq!(text(cmd_irq(12)), "Keyboard IRQ Debug Info:\n  IRQ count: (IRQs firing!)\n  Count: C\n");
}

#[test]
fn keyboard_test_reports() {
    assert_eq!(text(cmd_kbd_report(KbdTestOutcome::Timeout)), "TIMEOUT - No input received\n");
    assert_eq!(text(cmd_kbd_report(KbdTestOutcome::Irq(b'q'))), "IRQ: q\nSUCCESS - IRQ driver working!\n");
    assert_eq!(text(cmd_kbd_report(KbdTestOutcome::Poll(b'z'))), "POLL: z\nIRQ NOT working - polling works\n");
}

#[test]
fn pci_device_dump_lines() {
    let bars = [0xFEBF_0004u32, 0, 0, 0, 0xE001, 0];
    let usb = text(dump_pci_device(0, 0x14, 0, 0x8086, 0xA36D, 0x0C, 0x03, 0x30, 0x80, (0, 0, 0), &bars));
    assert_eq!(
        usb,
        "PCI: 00:14.0 vendor=8086 device=A36D class=0C sub=03 if=30 hdr=80 [USB] [INTEL]\n  BAR0 = 0xFEBF0004 [MEM]\n  BAR4 = 0x0000E001 [I/O]\n"
    );
    let bridge = text(dump_pci_device(0, 1, 2, 0x1022, 0x1483, 0x06, 0x04, 0x00, 0x01, (0, 1, 3), &[0; 6]));
    assert_eq!(bridge, "PCI: 00:01.2 vendor=1022 device=1483 class=06 sub=04 if=00 hdr=01 [BRIDGE] buses=0-1-3\n");
    let other = text(dump_pci_device(2, 0, 9, 0x10DE, 0x1F82, 0x03, 0x00, 0x00, 0x00, (0, 0, 0), &[1; 6]));
    assert_eq!(other, "PCI: 02:00.? vendor=10DE device=1F82 class=03 sub=00 if=00 hdr=00\n");
}

#[test]
fn port_status_dump_line() {
    let line = text(dump_portsc(1, b"BEFORE", 0x0000_3203 | 0x20));
    assert_eq!(line, "PORTSC[1] BEFORE: 0x00003223 CCS=1 PED=0 PR=1 Speed=Super\n");
    let idle = text(dump_portsc(2, b"AFTER", 0x0000_F004));
    assert_eq!(idle, "PORTSC[2] AFTER: 0x0000F004 CCS=0 PED=1 PR=0 Speed=Unknown\n");
}

#[test]
fn event_trb_dump_line() {
    let event = EventTrb { trb_ptr: 0x0000_0001_2345_6780, status: 0x0100_0008, control: 0x0300_8401 };
    assert_eq!(
        text(dump_event_trb(&event)),
        "  Event TRB: ptr=0x0000000123456780 status=0x01000008 control=0x03008401 CC=01 Type=21 Slot=03(Success)\n"
    );
    let stalled = EventTrb { trb_ptr: 0, status: 0x0600_0000, control: 0 };
    assert!(text(dump_event_trb(&stalled)).ends_with("(NoSlotsError)\n"));
}

#[test]
fn device_descriptor_dump() {
    let desc = [18u8, 1, 0x00, 0x02, 0, 0, 0, 64, 0x6D, 0x04, 0x1C, 0xC3, 0x00, 0x01, 1, 2, 0, 1];
    let out = text(dump_device_descriptor(&desc));
    assert_eq!(
        out,
        "  Device Descriptor:\n    bLength=12\n    bDescriptorType=01\n    bcdUSB=0x0200\n    bDeviceClass=00\n    bDeviceSubClass=00\n    bDeviceProtocol=00\n    bMaxPacketSize0=40\n    idVendor=0x046D\n    idProduct=0xC31C\n    iManufacturer=01\n    iProduct=02\n    iSerialNumber=00\n    bNumConfigurations=01\n"
    );
}

#[test]
fn mouse_moves_are_clamped() {
    let mut mouse = MouseDriver::new();
    mouse.handle_byte(0x08);
    mouse.handle_byte(0x05);
    mouse.handle_byte(0xFB);
    assert_eq!(mouse.get_position(), (5, 5));
    mouse.state.x = 32767;
    mouse.handle_byte(0x09);
    mouse.handle_byte(0x7F);
    mouse.handle_byte(0x00);
    assert_eq!(mouse.get_position(), (32767, 5));
    assert_eq!(mouse.get_buttons(), (true, false, false));
    assert_eq!(mouse.byte_count, 0);
    mouse.state.y = -32767;
    mouse.handle_byte(0x08);
    mouse.handle_byte(0x00);
    mouse.handle_byte(0x7F);
    assert_eq!(mouse.get_position(), (32767, -32767));
    let mut still = MouseDriver::new();
    still.state.x = 32760;
    still.handle_byte(0x48);
    still.handle_byte(0x7F);
    still.handle_byte(0x00);
    assert_eq!(still.get_position(), (32760, 0));
}
