use rustux::apic::{
    apic_issue_eoi, apic_local_writes, apic_msr_usable, hex_lower_digits, ioapic_probe_message,
    ioapic_readback_message, ioapic_route_message, ioapic_route_writes, irq_redirection_offset, msr_value,
    pic_disable, x2apic_fixup, LAPIC_EOI_ADDR, LAPIC_SVR_ADDR, LAPIC_TPR_ADDR,
};
use rustux::device::get_descriptor_setup_packet;
use rustux::native_console::{
    ConsoleError, ConsoleOp, ConsoleType, FramebufferConfig, FramebufferConsole, NativeConsole, PixelFormat,
    SerialConfig,
};
use rustux::poll::{Poll, PollStep};
use rustux::trb::{EventTrb, NormalTrb};
use rustux::usb::{UsbError, XhciInfo};
use rustux::xhci::{
    check_port_connection, control_get_trbs, control_set_trbs, control_wait_result, enable_slot_event,
    enable_slot_trb, iman_enable_value, iman_pending, is_running, operational_setup, port_reset_outcome,
    port_reset_value, port_sc_offset, reset_complete, split_u64, SlotEventOutcome, TransferRing, XhciController,
};

#[test]
fn apic_msr_checks() {
    assert_eq!(msr_value(0xFEE0_0C00, 0x1), 0x1_FEE0_0C00);
    assert_eq!(x2apic_fixup(0xFEE0_0C00), Some(0xFEE0_0800));
    assert_eq!(x2apic_fixup(0xFEE0_0800), None);
    assert!(apic_msr_usable(0xFEE0_0800));
    assert!(!apic_msr_usable(0xFEE0_0C00));
    assert!(!apic_msr_usable(0xFEE0_0000));
}

#[test]
fn apic_register_writes() {
    assert_eq!(apic_local_writes(), [(LAPIC_SVR_ADDR, 0x1FF), (LAPIC_TPR_ADDR, 0)]);
    assert_eq!(LAPIC_SVR_ADDR, 0xFEE0_0070);
    assert_eq!(apic_issue_eoi(), (0xFEE0_00B0, 0));
    assert_eq!(LAPIC_EOI_ADDR, 0xFEE0_00B0);
    assert_eq!(irq_redirection_offset(1), 0x12);
    assert_eq!(irq_redirection_offset(4), 0x18);
    assert_eq!(
        ioapic_route_writes(1, 33),
        [(0xFEC0_0000, 0x12), (0xFEC0_0010, 33), (0xFEC0_0000, 0x13), (0xFEC0_0010, 0)]
    );
}

#[test]
fn pic_masking_writes() {
    let ops = pic_disable();
    let text: Vec<u8> = ops.iter().filter(|(p, _)| *p == 0xE9).map(|(_, b)| *b).collect();
    assert_eq!(text, b"[PIC] Disabling 8259A PIC...\n[PIC] All IRQs masked\n".to_vec());
    let masks: Vec<(u16, u8)> = ops.iter().filter(|(p, _)| *p != 0xE9).copied().collect();
    assert_eq!(masks, vec![(0x21, 0xFF), (0xA1, 0xFF)]);
}

#[test]
fn ioapic_messages() {
    assert_eq!(ioapic_probe_message(0x0200_0000, 0x0017_0020), b"[IOAPIC] ID=2 VER=32 MAX_REDIR=24\n".to_vec());
    assert_eq!(ioapic_route_message(1, 33), b"[IOAPIC] irq=1 vector=33\n".to_vec());
    assert_eq!(hex_lower_digits(0), b"0".to_vec());
    assert_eq!(hex_lower_digits(0x1a2f), b"1a2f".to_vec());
    assert_eq!(
        ioapic_readback_message(0x21, 0),
        b"[IOAPIC] readback: low=0x21 high=0x0\n[IOAPIC] configured\n".to_vec()
    );
}

#[test]
fn poll_counts_down_to_timeout() {
    let mut p = Poll::with_budget(2);
    assert_eq!(p.step(false), PollStep::Retry);
    assert!(!p.timed_out());
    assert_eq!(p.step(false), PollStep::TimedOut);
    assert!(p.timed_out());
    assert_eq!(p.step(true), PollStep::TimedOut);
    let mut q = Poll::new();
    assert_eq!(q.remaining, 100000);
    assert_eq!(q.step(true), PollStep::Done);
    assert_eq!(q.remaining, 100000);
}

#[test]
fn xhci_controller_from_capabilities() {
    let info = XhciInfo { mmio_base: 0xF000_0000 };
    assert!(matches!(XhciController::new(info, 0xFF, 0x0110, 0x2000, 0x3000), Err(UsbError::XhciInitFailed)));
    assert!(matches!(XhciController::new(info, 0x20, 0x0096, 0x2000, 0x3000), Err(UsbError::XhciInitFailed)));
    let c = XhciController::new(info, 0x20, 0x0110, 0x2001, 0x3003).unwrap();
    assert_eq!(c.mmio_base(), 0xF000_0000);
    assert_eq!(c.runtime_offset, 0x2000);
    assert_eq!(c.doorbell_offset, 0x3002);
    assert_eq!(c.op_reg_offset(0x18), 0x38);
    assert_eq!(c.runtime_reg_offset(0x20), 0x2020);
    assert_eq!(c.doorbell(1, 3, 0), (0x3006, 3));
    assert_eq!(c.doorbell(2, 1, 5), (0x300A, 0x0005_0001));
}

#[test]
fn xhci_status_bits() {
    assert_eq!(port_sc_offset(0), 0x400);
    assert_eq!(port_sc_offset(3), 0x430);
    assert!(is_running(0));
    assert!(!is_running(0x1000));
    assert!(reset_complete(0x1, 0));
    assert!(!reset_complete(0x2, 0));
    assert!(!reset_complete(0, 0x800));
    assert!(check_port_connection(0x5));
    assert!(!check_port_connection(0x1));
    assert_eq!(port_reset_value(0x0000_0201), 0x0000_0221);
    assert_eq!(port_reset_outcome(false, 0x5), Err(UsbError::XhciInitFailed));
    assert_eq!(port_reset_outcome(true, 0x1), Err(UsbError::DeviceNotFound));
    assert_eq!(port_reset_outcome(true, 0x5), Ok(()));
    assert_eq!(iman_enable_value(0x1), 0x3);
    assert!(iman_pending(0x3));
    assert!(!iman_pending(0x2));
    assert_eq!(control_wait_result(0), Err(UsbError::Timeout));
    assert_eq!(control_wait_result(7), Ok(()));
}

#[test]
fn xhci_operational_registers() {
    assert_eq!(split_u64(0x1234_5678_9ABC_DEF0), (0x9ABC_DEF0, 0x1234_5678));
    let s = operational_setup(0x1_0000_0040, 0x2000, 0x3000, 0x4000, 1).unwrap();
    assert_eq!(s.crcr, (0x41, 0x1));
    assert_eq!(s.erdp, (0x2000, 0));
    assert_eq!(s.erstba, (0x3000, 0));
    assert_eq!(s.dcbaap, (0x4000, 0));
    assert_eq!(operational_setup(0x1010, 0x2000, 0x3000, 0x4000, 1), Err(UsbError::XhciInitFailed));
}

#[test]
fn xhci_slot_commands() {
    assert_eq!(enable_slot_trb(), NormalTrb { data_ptr: 0, status: 0, control: 0x2420 });
    let done = EventTrb { trb_ptr: 0, status: 0x0100_0000, control: 0x0300_8400 };
    assert_eq!(enable_slot_event(&done), SlotEventOutcome::Slot(3));
    let failed = EventTrb { trb_ptr: 0, status: 0x0500_0000, control: 0x0300_8400 };
    assert_eq!(enable_slot_event(&failed), SlotEventOutcome::Failed);
    let transfer = EventTrb { trb_ptr: 0, status: 0x0100_0000, control: 0x0300_8000 };
    assert_eq!(enable_slot_event(&transfer), SlotEventOutcome::Ignore);
}

#[test]
fn xhci_control_transfer_trbs() {
    let setup = get_descriptor_setup_packet(1, 0, 18);
    let get = control_get_trbs(&setup, 0x8000, 18);
    assert_eq!(
        get,
        vec![
            NormalTrb { data_ptr: 0x0012_0000_0100_0680, status: 18, control: 0x10860 },
            NormalTrb { data_ptr: 0x8000, status: 18, control: 0x10420 },
            NormalTrb { data_ptr: 0, status: 0, control: 0x1020 },
        ]
    );
    let set = control_set_trbs(&rustux::device::set_address_setup_packet(5));
    assert_eq!(
        set,
        vec![
            NormalTrb { data_ptr: 0x0005_0500, status: 0, control: 0x860 },
            NormalTrb { data_ptr: 0, status: 0, control: 0x11020 },
        ]
    );
}

#[test]
fn transfer_ring_fills_after_fifteen() {
    let mut ring = TransferRing::new();
    let trb = NormalTrb { data_ptr: 0x10, status: 8, control: 0x400 };
    for i in 0..15 {
        assert_eq!(ring.enqueue(&trb), Ok(()), "slot {}", i);
    }
    assert_eq!(ring.enqueue, 15);
    assert_eq!(ring.trbs[0], NormalTrb { data_ptr: 0x10, status: 8, control: 0x401 });
    assert_eq!(ring.enqueue(&trb), Err(UsbError::Timeout));
    assert_eq!(ring.enqueue, 15);
    assert_eq!(ring.cycle_state, 1);
}

#[test]
fn serial_console_queues_setup_then_bytes() {
    let mut console = NativeConsole::new();
    assert_eq!(console.get_type(), ConsoleType::Absent);
    assert_eq!(console.write(b"x"), Err(ConsoleError::NotAvailable));
    console.init_serial(SerialConfig::default());
    assert_eq!(console.get_type(), ConsoleType::Serial);
    assert_eq!(console.write(b"ok"), Ok(()));
    let ops = console.serial.as_ref().unwrap().pending.clone();
    assert_eq!(
        ops,
        vec![
            ConsoleOp::PortOut { port: 0x3F9, value: 0x00 },
            ConsoleOp::PortOut { port: 0x3FB, value: 0x80 },
            ConsoleOp::PortOut { port: 0x3F8, value: 12 },
            ConsoleOp::PortOut { port: 0x3F9, value: 0 },
            ConsoleOp::PortOut { port: 0x3FB, value: 0x03 },
            ConsoleOp::PortOut { port: 0x3FA, value: 0xC7 },
            ConsoleOp::PortOut { port: 0x3FC, value: 0x0B },
            ConsoleOp::SerialTransmit { port: 0x3F8, byte: b'o' },
            ConsoleOp::SerialTransmit { port: 0x3F8, byte: b'k' },
        ]
    );
    assert_eq!(console.write_str("!"), Ok(()));
    assert_eq!(console.serial.as_ref().unwrap().pending.len(), 10);
    assert_eq!(console.flush(), Ok(()));
}

#[test]
fn framebuffer_console_cursor_and_scroll() {
    let config = FramebufferConfig {
        address: 0x8000_0000,
        width: 16,
        height: 17,
        stride: 16,
        bytes_per_pixel: 4,
        format: PixelFormat::BGR,
    };
    let mut fb = FramebufferConsole::new(config);
    fb.clear();
    assert_eq!(fb.pending, vec![ConsoleOp::FbClear { size: 17 * 16 * 4 }]);
    fb.write_char('a');
    assert_eq!((fb.cursor_x, fb.cursor_y), (1, 0));
    fb.write_char('\r');
    assert_eq!((fb.cursor_x, fb.cursor_y), (0, 0));
    fb.write_char('\n');
    assert_eq!((fb.cursor_x, fb.cursor_y), (0, 1));
    fb.write_char('\u{e9}');
    assert_eq!((fb.cursor_x, fb.cursor_y), (0, 1));
    fb.cursor_x = 8;
    fb.write_char('b');
    assert_eq!((fb.cursor_x, fb.cursor_y), (0, 1));
    assert_eq!(fb.pending.last(), Some(&ConsoleOp::FbScroll { shift: 64 * 16, size: 64 }));
    let mut console = NativeConsole::new();
    console.init_framebuffer(config);
    assert_eq!(console.get_type(), ConsoleType::Framebuffer);
    assert_eq!(console.write(b"hi"), Ok(()));
    let f = console.framebuffer.as_ref().unwrap();
    assert!(f.initialized);
    assert_eq!((f.cursor_x, f.cursor_y), (2, 0));
    assert_eq!(f.pending, vec![ConsoleOp::FbClear { size: 17 * 16 * 4 }]);
}
