//! USB device enumeration vocabulary: setup packets and the HID keyboard
//! the enumeration settles on.

use vstd::prelude::*;
use crate::usb::UsbError;
use crate::trb::{CompletionCode, EventTrb, NormalTrb, code_field, completion_code, completion_code_of};
use crate::xhci::XhciController;

verus! {

/// USB HID boot protocol keyboard report size.
pub const HID_REPORT_SIZE: usize = 8;

/// Device descriptor buffer size.
pub const DEVICE_DESC_SIZE: usize = 18;

/// USB control request codes.
pub const USB_REQ_GET_DESCRIPTOR: u8 = 0x06;
pub const USB_REQ_SET_ADDRESS: u8 = 0x05;
pub const USB_REQ_SET_CONFIGURATION: u8 = 0x09;
pub const USB_REQ_SET_INTERFACE: u8 = 0x0B;
pub const USB_REQ_SET_PROTOCOL: u8 = 0x0B;

/// USB descriptor types.
pub const USB_DT_DEVICE: u8 = 0x01;
pub const USB_DT_CONFIG: u8 = 0x02;
pub const USB_DT_STRING: u8 = 0x03;
pub const USB_DT_INTERFACE: u8 = 0x04;
pub const USB_DT_ENDPOINT: u8 = 0x05;
pub const USB_DT_HID: u8 = 0x21;
pub const USB_DT_REPORT: u8 = 0x22;

/// USB HID protocols.
pub const USB_HID_BOOT_PROTOCOL: u8 = 0x00;
pub const USB_HID_REPORT_PROTOCOL: u8 = 0x01;

/// USB HID class codes.
pub const USB_CLASS_HID: u8 = 0x03;
pub const USB_HID_SUBCLASS_BOOT: u8 = 0x01;
pub const USB_HID_PROTOCOL_KEYBOARD: u8 = 0x01;

/// USB endpoint types.
pub const USB_ENDPOINT_XFER_CONTROL: u8 = 0x00;
pub const USB_ENDPOINT_XFER_ISOC: u8 = 0x01;
pub const USB_ENDPOINT_XFER_BULK: u8 = 0x02;
pub const USB_ENDPOINT_XFER_INT: u8 = 0x03;

/// USB endpoint directions.
pub const USB_DIR_OUT: u8 = 0x00;
pub const USB_DIR_IN: u8 = 0x80;

/// USB setup packet.
#[derive(PartialEq, Eq, Structural, Debug, Clone, Copy)]
pub struct UsbSetupPacket {
    pub bm_request_type: u8,
    pub b_request: u8,
    pub w_value: u16,
    pub w_index: u16,
    pub w_length: u16,
}

/// GET_DESCRIPTOR request (device-to-host, standard, device).
pub fn get_descriptor_setup_packet(desc_type: u8, desc_index: u8, length: u16) -> (r: UsbSetupPacket)
    ensures
        r == (UsbSetupPacket {
            bm_request_type: 0x80,
            b_request: USB_REQ_GET_DESCRIPTOR,
            w_value: (desc_type * 256 + desc_index) as u16,
            w_index: 0,
            w_length: length,
        }),
{
    let w_value = ((desc_type as u16) << 8) | (desc_index as u16);
    assert(((desc_type as u16) << 8) | (desc_index as u16) == desc_type * 256 + desc_index)
        by (bit_vector);
    UsbSetupPacket {
        bm_request_type: 0x80,
        b_request: USB_REQ_GET_DESCRIPTOR,
        w_value,
        w_index: 0,
        w_length: length,
    }
}

/// SET_ADDRESS request (host-to-device, standard, device).
pub fn set_address_setup_packet(address: u8) -> (r: UsbSetupPacket)
    ensures
        r == (UsbSetupPacket {
            bm_request_type: 0x00,
            b_request: USB_REQ_SET_ADDRESS,
            w_value: address as u16,
            w_index: 0,
            w_length: 0,
        }),
{
    UsbSetupPacket {
        bm_request_type: 0x00,
        b_request: USB_REQ_SET_ADDRESS,
        w_value: address as u16,
        w_index: 0,
        w_length: 0,
    }
}

/// SET_CONFIGURATION request (host-to-device, standard, device).
pub fn set_configuration_setup_packet(config: u8) -> (r: UsbSetupPacket)
    ensures
        r == (UsbSetupPacket {
            bm_request_type: 0x00,
            b_request: USB_REQ_SET_CONFIGURATION,
            w_value: config as u16,
            w_index: 0,
            w_length: 0,
        }),
{
    UsbSetupPacket {
        bm_request_type: 0x00,
        b_request: USB_REQ_SET_CONFIGURATION,
        w_value: config as u16,
        w_index: 0,
        w_length: 0,
    }
}

/// SET_PROTOCOL(boot) request (host-to-device, class, interface 0).
pub fn set_boot_protocol_setup_packet() -> (r: UsbSetupPacket)
    ensures
        r == (UsbSetupPacket {
            bm_request_type: 0x21,
            b_request: USB_REQ_SET_PROTOCOL,
            w_value: USB_HID_BOOT_PROTOCOL as u16,
            w_index: 0,
            w_length: 0,
        }),
{
    UsbSetupPacket {
        bm_request_type: 0x21,
        b_request: USB_REQ_SET_PROTOCOL,
        w_value: USB_HID_BOOT_PROTOCOL as u16,
        w_index: 0,
        w_length: 0,
    }
}

/// The 64-bit little-endian image of a setup packet, as a setup stage TRB
/// carries it immediately.
pub open spec fn setup_image(setup: UsbSetupPacket) -> int {
    setup.bm_request_type + setup.b_request * 0x100 + setup.w_value * 0x1_0000 + setup.w_index
        * 0x1_0000_0000 + setup.w_length * 0x1_0000_0000_0000
}

/// Packs a setup packet into the parameter of a setup stage TRB.
pub fn setup_packet_param(setup: &UsbSetupPacket) -> (r: u64)
    ensures
        r == setup_image(*setup),
{
    let a = setup.bm_request_type as u64;
    let b = setup.b_request as u64;
    let c = setup.w_value as u64;
    let d = setup.w_index as u64;
    let e = setup.w_length as u64;
    let r = a | (b << 8) | (c << 16) | (d << 32) | (e << 48);
    assert(r == a + b * 0x100 + c * 0x1_0000 + d * 0x1_0000_0000 + e * 0x1_0000_0000_0000)
        by (bit_vector)
        requires
            a < 0x100,
            b < 0x100,
            c < 0x1_0000,
            d < 0x1_0000,
            e < 0x1_0000,
            r == a | (b << 8) | (c << 16) | (d << 32) | (e << 48),
    ;
    r
}

/// Law: the setup stage parameter is the packet's fields laid out
/// byte-wise; each field is recovered from its bit range.
pub proof fn lemma_setup_param_fields(setup: UsbSetupPacket, p: u64)
    requires
        p == setup_image(setup),
    ensures
        p % 0x100 == setup.bm_request_type,
        (p / 0x100) % 0x100 == setup.b_request,
        (p / 0x1_0000) % 0x1_0000 == setup.w_value,
        (p / 0x1_0000_0000) % 0x1_0000 == setup.w_index,
        p / 0x1_0000_0000_0000 == setup.w_length,
{
    let a = setup.bm_request_type as u64;
    let b = setup.b_request as u64;
    let c = setup.w_value as u64;
    let d = setup.w_index as u64;
    let e = setup.w_length as u64;
    assert(p % 0x100 == a && (p / 0x100) % 0x100 == b && (p / 0x1_0000) % 0x1_0000 == c && (p
        / 0x1_0000_0000) % 0x1_0000 == d && p / 0x1_0000_0000_0000 == e) by (bit_vector)
        requires
            a < 0x100,
            b < 0x100,
            c < 0x1_0000,
            d < 0x1_0000,
            e < 0x1_0000,
            p == a + b * 0x100 + c * 0x1_0000 + d * 0x1_0000_0000 + e * 0x1_0000_0000_0000,
    ;
}

/// USB device information for the HID keyboard.
#[derive(PartialEq, Eq, Structural, Debug, Clone, Copy)]
pub struct HidKeyboardInfo {
    pub slot_id: u8,
    pub endpoint_addr: u8,
    pub max_packet: u16,
    pub interval: u8,
}

/// The keyboard the enumeration assumes once the device answered on a
/// slot: interrupt IN endpoint 1, 8-byte packets, 10 ms interval.
pub fn assumed_hid_keyboard(slot_id: u8) -> (r: HidKeyboardInfo)
    ensures
        r == (HidKeyboardInfo { slot_id, endpoint_addr: 0x81, max_packet: 8, interval: 10 }),
{
    HidKeyboardInfo { slot_id, endpoint_addr: 0x81, max_packet: 8, interval: 10 }
}

/// Enumeration state kept between calls: the keyboard found, whether an
/// xHCI port showed a device, and whether an interrupt transfer is
/// outstanding.
pub struct UsbDeviceState {
    pub hid_keyboard: Option<HidKeyboardInfo>,
    pub xhci_success_with_device: bool,
    pub transfer_active: bool,
}

impl UsbDeviceState {
    /// Nothing enumerated yet.
    pub fn new() -> (r: Self)
        ensures
            r.hid_keyboard is None,
            !r.xhci_success_with_device,
            !r.transfer_active,
    {
        UsbDeviceState { hid_keyboard: None, xhci_success_with_device: false, transfer_active: false }
    }
}

/// Whether a HID keyboard has been enumerated.
pub fn has_hid_keyboard(state: &UsbDeviceState) -> (r: bool)
    ensures
        r == state.hid_keyboard is Some,
{
    state.hid_keyboard.is_some()
}

/// The enumerated HID keyboard.
pub fn get_hid_keyboard(state: &UsbDeviceState) -> (r: Option<HidKeyboardInfo>)
    ensures
        r == state.hid_keyboard,
{
    state.hid_keyboard
}

/// Whether an xHCI port showed a connected device.
pub fn xhci_succeeded_with_device(state: &UsbDeviceState) -> (r: bool)
    ensures
        r == state.xhci_success_with_device,
{
    state.xhci_success_with_device
}

/// Whether a USB keyboard is ready: a controller is up and a keyboard was
/// enumerated.
pub fn is_keyboard_available(controller_present: bool, state: &UsbDeviceState) -> (r: bool)
    ensures
        r == (controller_present && state.hid_keyboard is Some),
{
    controller_present && has_hid_keyboard(state)
}

/// Reads a boot-protocol report out of the 8-byte report buffer.
pub fn parse_report_buffer(buffer: &[u8; 8]) -> (r: crate::hid::KeyboardReport)
    ensures
        r.modifier == buffer@[0],
        r.reserved == buffer@[1],
        r.keycodes@ == buffer@.subrange(2, 8),
{
    let r = crate::hid::KeyboardReport {
        modifier: buffer[0],
        reserved: buffer[1],
        keycodes: [buffer[2], buffer[3], buffer[4], buffer[5], buffer[6], buffer[7]],
    };
    assert(r.keycodes@ =~= buffer@.subrange(2, 8));
    r
}


/// The port speed field (bits 12-15) of a port status value.
pub open spec fn speed_field(portsc: u32) -> int {
    (portsc as int / 0x1000) % 16
}

/// Port speed name from the PORTSC speed field.
pub fn get_port_speed_name(portsc: u32) -> (r: &'static str)
    ensures
        speed_field(portsc) == 0 ==> r@ == "Full"@,
        speed_field(portsc) == 1 ==> r@ == "Low"@,
        speed_field(portsc) == 2 ==> r@ == "High"@,
        speed_field(portsc) == 3 ==> r@ == "Super"@,
        speed_field(portsc) == 4 ==> r@ == "SuperPlus"@,
        speed_field(portsc) > 4 ==> r@ == "Unknown"@,
{
    let speed = (portsc & crate::xhci::PORTSC_PORT_SPEED_MASK) >> crate::xhci::PORTSC_PORT_SPEED_SHIFT;
    proof {
        crate::bits::lemma_u32_fields();
    }
    assert((portsc & 0xF000) >> 12 == (portsc / 0x1000) % 16);
    match speed {
        0 => "Full",
        1 => "Low",
        2 => "High",
        3 => "Super",
        4 => "SuperPlus",
        _ => "Unknown",
    }
}

/// The first of ports 1 to 4 whose status shows a connected device;
/// `portsc[i]` is the status of port `i + 1`. Records that a device was
/// seen.
pub fn find_connected_port(state: &mut UsbDeviceState, portsc: &[u32; 4]) -> (r: Option<usize>)
    ensures
        match r {
            Some(p) => 1 <= p <= 4 && portsc@[p - 1] % 2 == 1 && (forall|j: int|
                0 <= j < p - 1 ==> portsc@[j] % 2 == 0) && final(state).xhci_success_with_device,
            None => (forall|j: int| 0 <= j < 4 ==> portsc@[j] % 2 == 0) && final(state).xhci_success_with_device
                == old(state).xhci_success_with_device,
        },
        final(state).hid_keyboard == old(state).hid_keyboard,
        final(state).transfer_active == old(state).transfer_active,
{
    let mut i: usize = 0;
    while i < 4
        invariant
            0 <= i <= 4,
            forall|j: int| 0 <= j < i ==> portsc@[j] % 2 == 0,
            state.xhci_success_with_device == old(state).xhci_success_with_device,
            state.hid_keyboard == old(state).hid_keyboard,
            state.transfer_active == old(state).transfer_active,
        decreases 4 - i,
    {
        let v = portsc[i];
        proof {
            crate::bits::lemma_u32_fields();
        }
        assert((v & 1 != 0) == (v % 2 == 1));
        if v & crate::xhci::PORTSC_CCS != 0 {
            state.xhci_success_with_device = true;
            return Some(i + 1);
        }
        i = i + 1;
    }
    None
}

/// Whether some port among ports 1 to 4 shows a connected device.
pub open spec fn any_port_connected(portsc: Seq<u32>) -> bool {
    exists|j: int| 0 <= j < 4 && portsc[j] % 2 == 1
}

/// Enumerates the keyboard: with a controller up, takes the first of
/// ports 1 to 4 that shows a device, records that a device was seen and
/// records the keyboard assumed on slot 1. Returns that port (for the
/// reset and the bring-up transfers, whose outcome the enumeration does
/// not depend on) and the keyboard.
pub fn enumerate_hid_keyboard(state: &mut UsbDeviceState, controller_present: bool, portsc: &[u32; 4]) -> (r:
    Result<(usize, HidKeyboardInfo), UsbError>)
    ensures
        r is Ok <==> controller_present && any_port_connected(portsc@),
        !controller_present ==> r == Err::<(usize, HidKeyboardInfo), UsbError>(UsbError::XhciNotFound),
        controller_present && !any_port_connected(portsc@) ==> r == Err::<(usize, HidKeyboardInfo), UsbError>(
            UsbError::DeviceNotFound),
        r is Err ==> *final(state) == *old(state),
        r matches Ok((port, k)) ==> {
            &&& 1 <= port <= 4
            &&& portsc@[port - 1] % 2 == 1
            &&& forall|j: int| 0 <= j < port - 1 ==> portsc@[j] % 2 == 0
            &&& k == (HidKeyboardInfo { slot_id: 1, endpoint_addr: 0x81, max_packet: 8, interval: 10 })
            &&& final(state).hid_keyboard == Some(k)
            &&& final(state).xhci_success_with_device
            &&& final(state).transfer_active == old(state).transfer_active
        },
{
    if !controller_present {
        return Err(UsbError::XhciNotFound);
    }
    let port = match find_connected_port(state, portsc) {
        Some(p) => p,
        None => {
            return Err(UsbError::DeviceNotFound);
        },
    };
    let keyboard = assumed_hid_keyboard(1);
    state.hid_keyboard = Some(keyboard);
    Ok((port, keyboard))
}

/// Device context index of an IN endpoint address (endpoint number in
/// bits 0-3): `2 * number + 1`.
pub fn in_endpoint_dci(endpoint_addr: u8) -> (r: u8)
    ensures
        r == 2 * (endpoint_addr % 16) + 1,
{
    let n = endpoint_addr & 0x0F;
    proof {
        crate::bits::lemma_u8_flags();
    }
    assert(endpoint_addr & 0x0F == endpoint_addr % 16);
    n * 2 + 1
}

/// The Normal TRB of a keyboard interrupt IN transfer into the report
/// buffer: 8 bytes, IOC, interrupt on short packet.
pub fn keyboard_in_trb(data_ptr: u64) -> (r: NormalTrb)
    ensures
        r == (NormalTrb { data_ptr, status: 8, control: 0x10420 }),
{
    let length = (HID_REPORT_SIZE as u32) & 0x00FF_FFFF;
    proof {
        crate::bits::lemma_u32_fields();
    }
    assert(8u32 & 0x00FF_FFFF == 8);
    NormalTrb { data_ptr, status: length, control: 0x10420 }
}

/// The transfer length (bits 0-23) of a transfer event's status.
pub open spec fn length_field(status: u32) -> int {
    status as int % 0x100_0000
}

/// Outcome of a completed transfer event: 0 on any completion code but
/// success, else the transfer length.
pub open spec fn event_length(event: EventTrb) -> int {
    if completion_code_of(code_field(event.status)) != CompletionCode::Success {
        0
    } else {
        length_field(event.status)
    }
}

/// Checks on an outstanding keyboard transfer with the event the poll
/// produced: with an event the transfer is over and its length (0 on an
/// error code) is returned, capped at the report size; without one the
/// transfer stays outstanding and 0 is returned.
pub fn pending_transfer_event(state: &mut UsbDeviceState, event: Option<EventTrb>) -> (r: usize)
    ensures
        r <= HID_REPORT_SIZE,
        final(state).hid_keyboard == old(state).hid_keyboard,
        final(state).xhci_success_with_device == old(state).xhci_success_with_device,
        match event {
            Some(e) => r == (if event_length(e) < 8 { event_length(e) } else { 8 }) && !final(state).transfer_active,
            None => r == 0 && final(state).transfer_active == old(state).transfer_active,
        },
{
    match event {
        Some(e) => {
            state.transfer_active = false;
            let len = event_transfer_length(&e);
            if len < HID_REPORT_SIZE {
                len
            } else {
                HID_REPORT_SIZE
            }
        },
        None => 0,
    }
}

/// Transfer length of a completed event (0 unless the code is success).
pub fn event_transfer_length(event: &EventTrb) -> (r: usize)
    ensures
        r == event_length(*event),
{
    let code = completion_code(event.status);
    if code != CompletionCode::Success {
        return 0;
    }
    let status = event.status;
    proof {
        crate::bits::lemma_u32_fields();
    }
    assert(status & 0x00FF_FFFF == status % 0x100_0000);
    (status & 0x00FF_FFFF) as usize
}

/// Starts a keyboard interrupt transfer: needs an enumerated keyboard and
/// room on the transfer ring; queues the IN TRB, marks the transfer
/// outstanding and returns the doorbell write (offset, value) for the
/// keyboard's slot and IN endpoint. `None` when nothing was started.
pub fn start_keyboard_transfer(state: &mut UsbDeviceState, controller: &mut XhciController, report_ptr: u64) -> (r:
    Option<(u64, u32)>)
    requires
        old(controller).transfer_ring.wf(),
        old(controller).doorbell_offset <= u32::MAX,
    ensures
        final(controller).transfer_ring.wf(),
        final(controller).doorbell_offset == old(controller).doorbell_offset,
        final(state).hid_keyboard == old(state).hid_keyboard,
        old(state).hid_keyboard is None ==> r is None && final(state).transfer_active == old(state).transfer_active,
        r is Some ==> final(state).transfer_active && ({
            let k = old(state).hid_keyboard->0;
            &&& (r->0).0 == old(controller).doorbell_offset + k.slot_id * 4
            &&& (r->0).1 == 2 * (k.endpoint_addr % 16) + 1
        }),
{
    let keyboard = match state.hid_keyboard {
        Some(k) => k,
        None => {
            return None;
        },
    };
    let trb = keyboard_in_trb(report_ptr);
    match controller.transfer_ring.enqueue(&trb) {
        Ok(()) => {},
        Err(_) => {
            return None;
        },
    }
    let dci = in_endpoint_dci(keyboard.endpoint_addr);
    let db = controller.doorbell(keyboard.slot_id, dci, 0);
    state.transfer_active = true;
    Some(db)
}

/// Finishes a freshly started keyboard transfer with its completion
/// event: the transfer is over; 0 on an error code, else the length capped
/// at the report size.
pub fn finish_keyboard_transfer(state: &mut UsbDeviceState, event: &EventTrb) -> (r: usize)
    ensures
        !final(state).transfer_active,
        final(state).hid_keyboard == old(state).hid_keyboard,
        r <= HID_REPORT_SIZE,
        r == (if event_length(*event) < 8 { event_length(*event) } else { 8 }),
{
    state.transfer_active = false;
    let len = event_transfer_length(event);
    if len < HID_REPORT_SIZE {
        len
    } else {
        HID_REPORT_SIZE
    }
}

} // verus!
