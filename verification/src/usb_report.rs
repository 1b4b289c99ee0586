//! Diagnostic text of the USB bring-up: port status registers, event
//! TRBs and the device descriptor, in upper-case hexadecimal.

use vstd::prelude::*;
use crate::fmt::{hex_spec, push_hex};
use crate::shell::push_bytes;
use crate::trb::EventTrb;

verus! {

/// "PORTSC["
pub const PORTSC_OPEN: [u8; 7] = [80, 79, 82, 84, 83, 67, 91];

/// "] "
pub const PORTSC_CLOSE: [u8; 2] = [93, 32];

/// ": 0x"
pub const PORTSC_VALUE: [u8; 4] = [58, 32, 48, 120];

/// "CCS=1 "
pub const CCS_SET: [u8; 6] = [67, 67, 83, 61, 49, 32];

/// "CCS=0 "
pub const CCS_CLEAR: [u8; 6] = [67, 67, 83, 61, 48, 32];

/// "PED=1 "
pub const PED_SET: [u8; 6] = [80, 69, 68, 61, 49, 32];

/// "PED=0 "
pub const PED_CLEAR: [u8; 6] = [80, 69, 68, 61, 48, 32];

/// "PR=1 "
pub const PR_SET: [u8; 5] = [80, 82, 61, 49, 32];

/// "PR=0 "
pub const PR_CLEAR: [u8; 5] = [80, 82, 61, 48, 32];

/// "Speed="
pub const SPEED_LABEL: [u8; 6] = [83, 112, 101, 101, 100, 61];

/// "Full"
pub const SPEED_FULL: [u8; 4] = [70, 117, 108, 108];

/// "Low"
pub const SPEED_LOW: [u8; 3] = [76, 111, 119];

/// "High"
pub const SPEED_HIGH: [u8; 4] = [72, 105, 103, 104];

/// "Super"
pub const SPEED_SUPER: [u8; 5] = [83, 117, 112, 101, 114];

/// "SuperPlus"
pub const SPEED_SUPER_PLUS: [u8; 9] = [83, 117, 112, 101, 114, 80, 108, 117, 115];

/// "Unknown"
pub const SPEED_UNKNOWN: [u8; 7] = [85, 110, 107, 110, 111, 119, 110];

/// "  Event TRB: ptr=0x"
pub const EVENT_PTR: [u8; 19] = [32, 32, 69, 118, 101, 110, 116, 32, 84, 82, 66, 58, 32, 112, 116, 114, 61, 48, 120];

/// " status=0x"
pub const EVENT_STATUS: [u8; 10] = [32, 115, 116, 97, 116, 117, 115, 61, 48, 120];

/// " control=0x"
pub const EVENT_CONTROL: [u8; 11] = [32, 99, 111, 110, 116, 114, 111, 108, 61, 48, 120];

/// " CC="
pub const EVENT_CC: [u8; 4] = [32, 67, 67, 61];

/// " Type="
pub const EVENT_TYPE: [u8; 6] = [32, 84, 121, 112, 101, 61];

/// " Slot="
pub const EVENT_SLOT: [u8; 6] = [32, 83, 108, 111, 116, 61];

/// "Success"
pub const CC_SUCCESS: [u8; 7] = [83, 117, 99, 99, 101, 115, 115];

/// "TRBError"
pub const CC_TRB_ERROR: [u8; 8] = [84, 82, 66, 69, 114, 114, 111, 114];

/// "Stall"
pub const CC_STALL: [u8; 5] = [83, 116, 97, 108, 108];

/// "ResourceError"
pub const CC_RESOURCE: [u8; 13] = [82, 101, 115, 111, 117, 114, 99, 101, 69, 114, 114, 111, 114];

/// "BandwidthError"
pub const CC_BANDWIDTH: [u8; 14] = [66, 97, 110, 100, 119, 105, 100, 116, 104, 69, 114, 114, 111, 114];

/// "NoSlotsError"
pub const CC_NO_SLOTS: [u8; 12] = [78, 111, 83, 108, 111, 116, 115, 69, 114, 114, 111, 114];

/// "InvalidStreamTypeError"
pub const CC_STREAM_TYPE: [u8; 22] = [73, 110, 118, 97, 108, 105, 100, 83, 116, 114, 101, 97, 109, 84, 121, 112, 101, 69, 114, 114, 111, 114];

/// "SlotNotEnabledError"
pub const CC_SLOT_NOT_ENABLED: [u8; 19] = [83, 108, 111, 116, 78, 111, 116, 69, 110, 97, 98, 108, 101, 100, 69, 114, 114, 111, 114];

/// "EpNotEnabledError"
pub const CC_EP_NOT_ENABLED: [u8; 17] = [69, 112, 78, 111, 116, 69, 110, 97, 98, 108, 101, 100, 69, 114, 114, 111, 114];

/// "ShortPacket"
pub const CC_SHORT_PACKET: [u8; 11] = [83, 104, 111, 114, 116, 80, 97, 99, 107, 101, 116];

/// "IncompatibleDeviceError"
pub const CC_INCOMPATIBLE: [u8; 23] = [73, 110, 99, 111, 109, 112, 97, 116, 105, 98, 108, 101, 68, 101, 118, 105, 99, 101, 69, 114, 114, 111, 114];

/// "CommandAborted"
pub const CC_ABORTED: [u8; 14] = [67, 111, 109, 109, 97, 110, 100, 65, 98, 111, 114, 116, 101, 100];

/// "Unknown"
pub const CC_UNKNOWN: [u8; 7] = [85, 110, 107, 110, 111, 119, 110];

/// "  Device Descriptor:\n"
pub const DESC_HEAD: [u8; 21] = [32, 32, 68, 101, 118, 105, 99, 101, 32, 68, 101, 115, 99, 114, 105, 112, 116, 111, 114, 58, 10];

/// "    bLength="
pub const DESC_LENGTH: [u8; 12] = [32, 32, 32, 32, 98, 76, 101, 110, 103, 116, 104, 61];

/// "    bDescriptorType="
pub const DESC_TYPE: [u8; 20] = [32, 32, 32, 32, 98, 68, 101, 115, 99, 114, 105, 112, 116, 111, 114, 84, 121, 112, 101, 61];

/// "    bcdUSB=0x"
pub const DESC_BCD_USB: [u8; 13] = [32, 32, 32, 32, 98, 99, 100, 85, 83, 66, 61, 48, 120];

/// "    bDeviceClass="
pub const DESC_CLASS: [u8; 17] = [32, 32, 32, 32, 98, 68, 101, 118, 105, 99, 101, 67, 108, 97, 115, 115, 61];

/// "    bDeviceSubClass="
pub const DESC_SUBCLASS: [u8; 20] = [32, 32, 32, 32, 98, 68, 101, 118, 105, 99, 101, 83, 117, 98, 67, 108, 97, 115, 115, 61];

/// "    bDeviceProtocol="
pub const DESC_PROTOCOL: [u8; 20] = [32, 32, 32, 32, 98, 68, 101, 118, 105, 99, 101, 80, 114, 111, 116, 111, 99, 111, 108, 61];

/// "    bMaxPacketSize0="
pub const DESC_MAX_PACKET: [u8; 20] = [32, 32, 32, 32, 98, 77, 97, 120, 80, 97, 99, 107, 101, 116, 83, 105, 122, 101, 48, 61];

/// "    idVendor=0x"
pub const DESC_VENDOR: [u8; 15] = [32, 32, 32, 32, 105, 100, 86, 101, 110, 100, 111, 114, 61, 48, 120];

/// "    idProduct=0x"
pub const DESC_PRODUCT: [u8; 16] = [32, 32, 32, 32, 105, 100, 80, 114, 111, 100, 117, 99, 116, 61, 48, 120];

/// "    iManufacturer="
pub const DESC_MANUFACTURER: [u8; 18] = [32, 32, 32, 32, 105, 77, 97, 110, 117, 102, 97, 99, 116, 117, 114, 101, 114, 61];

/// "    iProduct="
pub const DESC_IPRODUCT: [u8; 13] = [32, 32, 32, 32, 105, 80, 114, 111, 100, 117, 99, 116, 61];

/// "    iSerialNumber="
pub const DESC_SERIAL: [u8; 18] = [32, 32, 32, 32, 105, 83, 101, 114, 105, 97, 108, 78, 117, 109, 98, 101, 114, 61];

/// "    bNumConfigurations="
pub const DESC_CONFIGS: [u8; 23] = [32, 32, 32, 32, 98, 78, 117, 109, 67, 111, 110, 102, 105, 103, 117, 114, 97, 116, 105, 111, 110, 115, 61];

/// A labelled field: the label, the value's `width` hexadecimal digits and
/// a newline.
pub open spec fn field_line(label: Seq<u8>, v: nat, width: nat) -> Seq<u8> {
    label + hex_spec(v, width) + seq![10u8]
}

fn push_field(out: &mut Vec<u8>, label: &[u8], v: u64, width: usize)
    ensures
        final(out)@ == old(out)@ + field_line(label@, v as nat, width as nat),
{
    let ghost start = out@;
    push_bytes(out, label);
    push_hex(out, v, width);
    out.push(10);
    assert(out@ =~= start + field_line(label@, v as nat, width as nat));
}

/// The name of a port speed field (bits 12-15 of PORTSC).
pub open spec fn speed_name(portsc: u32) -> Seq<u8> {
    let s = (portsc as int / 0x1000) % 16;
    if s == 0 {
        SPEED_FULL@
    } else if s == 1 {
        SPEED_LOW@
    } else if s == 2 {
        SPEED_HIGH@
    } else if s == 3 {
        SPEED_SUPER@
    } else if s == 4 {
        SPEED_SUPER_PLUS@
    } else {
        SPEED_UNKNOWN@
    }
}

/// The connect, enable and reset bits of a port status register.
pub open spec fn port_flags_text(portsc: u32) -> Seq<u8> {
    (if portsc % 2 == 1 { CCS_SET@ } else { CCS_CLEAR@ }) + (if (portsc / 4) % 2 == 1 {
        PED_SET@
    } else {
        PED_CLEAR@
    }) + (if (portsc / 32) % 2 == 1 { PR_SET@ } else { PR_CLEAR@ })
}

/// The diagnostic line of a port status register: the port digit and the
/// label, the value, the connect, enable and reset bits and the speed.
pub open spec fn portsc_text(port: usize, label: Seq<u8>, portsc: u32) -> Seq<u8> {
    PORTSC_OPEN@ + seq![(48 + port) as u8] + PORTSC_CLOSE@ + label + PORTSC_VALUE@ + hex_spec(portsc as nat, 8)
        + seq![32u8] + port_flags_text(portsc) + SPEED_LABEL@ + speed_name(portsc) + seq![10u8]
}

fn push_port_flags(out: &mut Vec<u8>, portsc: u32)
    ensures
        final(out)@ == old(out)@ + port_flags_text(portsc),
{
    proof {
        crate::bits::lemma_u32_fields();
    }
    let ghost start = out@;
    if portsc & crate::xhci::PORTSC_CCS != 0 {
        push_bytes(out, &CCS_SET);
    } else {
        push_bytes(out, &CCS_CLEAR);
    }
    if portsc & crate::xhci::PORTSC_PED != 0 {
        push_bytes(out, &PED_SET);
    } else {
        push_bytes(out, &PED_CLEAR);
    }
    if portsc & crate::xhci::PORTSC_PR != 0 {
        push_bytes(out, &PR_SET);
    } else {
        push_bytes(out, &PR_CLEAR);
    }
    assert(out@ =~= start + port_flags_text(portsc));
}

/// The name of a port status register's speed field.
pub fn port_speed_name(portsc: u32) -> (r: &'static [u8])
    ensures
        r@ == speed_name(portsc),
{
    proof {
        crate::bits::lemma_u32_fields();
    }
    let speed = (portsc & 0xF000) >> 12;
    assert(speed == (portsc / 0x1000) % 16);
    if speed == 0 {
        &SPEED_FULL
    } else if speed == 1 {
        &SPEED_LOW
    } else if speed == 2 {
        &SPEED_HIGH
    } else if speed == 3 {
        &SPEED_SUPER
    } else if speed == 4 {
        &SPEED_SUPER_PLUS
    } else {
        &SPEED_UNKNOWN
    }
}

/// The line showing a port's status register around a reset; the port
/// is printed as one character.
pub fn dump_portsc(port: usize, label: &[u8], portsc: u32) -> (r: Vec<u8>)
    requires
        port < 80,
    ensures
        r@ == portsc_text(port, label@, portsc),
{
    let mut out: Vec<u8> = Vec::new();
    push_bytes(&mut out, &PORTSC_OPEN);
    out.push(48 + port as u8);
    push_bytes(&mut out, &PORTSC_CLOSE);
    push_bytes(&mut out, label);
    push_bytes(&mut out, &PORTSC_VALUE);
    push_hex(&mut out, portsc as u64, 8);
    out.push(32);
    push_port_flags(&mut out, portsc);
    push_bytes(&mut out, &SPEED_LABEL);
    push_bytes(&mut out, port_speed_name(portsc));
    out.push(10);
    assert(out@ =~= portsc_text(port, label@, portsc));
    out
}

/// The name of a completion code.
pub open spec fn completion_name(code: u8) -> Seq<u8> {
    if code == 1 {
        CC_SUCCESS@
    } else if code == 2 {
        CC_TRB_ERROR@
    } else if code == 3 {
        CC_STALL@
    } else if code == 4 {
        CC_RESOURCE@
    } else if code == 5 {
        CC_BANDWIDTH@
    } else if code == 6 {
        CC_NO_SLOTS@
    } else if code == 7 {
        CC_STREAM_TYPE@
    } else if code == 8 {
        CC_SLOT_NOT_ENABLED@
    } else if code == 9 {
        CC_EP_NOT_ENABLED@
    } else if code == 13 {
        CC_SHORT_PACKET@
    } else if code == 22 {
        CC_INCOMPATIBLE@
    } else if code == 25 {
        CC_ABORTED@
    } else {
        CC_UNKNOWN@
    }
}

/// The name of a completion code.
pub fn completion_code_name(code: u8) -> (r: &'static [u8])
    ensures
        r@ == completion_name(code),
{
    match code {
        1 => &CC_SUCCESS,
        2 => &CC_TRB_ERROR,
        3 => &CC_STALL,
        4 => &CC_RESOURCE,
        5 => &CC_BANDWIDTH,
        6 => &CC_NO_SLOTS,
        7 => &CC_STREAM_TYPE,
        8 => &CC_SLOT_NOT_ENABLED,
        9 => &CC_EP_NOT_ENABLED,
        13 => &CC_SHORT_PACKET,
        22 => &CC_INCOMPATIBLE,
        25 => &CC_ABORTED,
        _ => &CC_UNKNOWN,
    }
}

/// The diagnostic line of an event TRB: pointer (high then low dword),
/// status and control in hexadecimal, then the completion code, TRB type
/// and slot fields and the code's name.
pub open spec fn event_text(e: EventTrb) -> Seq<u8> {
    let code = (e.status as int / 0x100_0000) as u8;
    EVENT_PTR@ + hex_spec((e.trb_ptr as int / 0x1_0000_0000) as nat, 8) + hex_spec(
        (e.trb_ptr as int % 0x1_0000_0000) as nat,
        8,
    ) + EVENT_STATUS@ + hex_spec(e.status as nat, 8) + EVENT_CONTROL@ + hex_spec(e.control as nat, 8) + EVENT_CC@
        + hex_spec(code as nat, 2) + EVENT_TYPE@ + hex_spec(((e.control as int / 1024) % 64) as nat, 2) + EVENT_SLOT@
        + hex_spec((e.control as int / 0x100_0000) as nat, 2) + seq![40u8] + completion_name(code) + seq![41u8, 10u8]
}

/// The line showing an event TRB.
pub fn dump_event_trb(event: &EventTrb) -> (r: Vec<u8>)
    ensures
        r@ == event_text(*event),
{
    proof {
        crate::bits::lemma_u32_fields();
        crate::bits::lemma_u64_fields();
    }
    let ptr = event.trb_ptr;
    let hi = (ptr >> 32) & 0xFFFF_FFFF;
    let lo = ptr & 0xFFFF_FFFF;
    assert(hi == ptr / 0x1_0000_0000);
    assert(lo == ptr % 0x1_0000_0000);
    let mut out: Vec<u8> = Vec::new();
    push_bytes(&mut out, &EVENT_PTR);
    push_hex(&mut out, hi, 8);
    push_hex(&mut out, lo, 8);
    push_bytes(&mut out, &EVENT_STATUS);
    push_hex(&mut out, event.status as u64, 8);
    push_bytes(&mut out, &EVENT_CONTROL);
    push_hex(&mut out, event.control as u64, 8);
    let ghost first = out@;
    let code = (event.status >> 24) as u8;
    assert(event.status >> 24 == event.status / 0x100_0000);
    push_bytes(&mut out, &EVENT_CC);
    push_hex(&mut out, code as u64, 2);
    let trb_type = (event.control >> 10) & 0x3F;
    assert(trb_type == (event.control / 1024) % 64);
    push_bytes(&mut out, &EVENT_TYPE);
    push_hex(&mut out, trb_type as u64, 2);
    let slot = (event.control >> 24) & 0xFF;
    assert(slot == event.control / 0x100_0000);
    push_bytes(&mut out, &EVENT_SLOT);
    push_hex(&mut out, slot as u64, 2);
    out.push(40);
    push_bytes(&mut out, completion_code_name(code));
    out.push(41);
    out.push(10);
    assert(out@ =~= event_text(*event));
    out
}

/// The lines of a device descriptor's fields.
pub open spec fn descriptor_text(d: Seq<u8>) -> Seq<u8> {
    DESC_HEAD@ + field_line(DESC_LENGTH@, d[0] as nat, 2) + field_line(DESC_TYPE@, d[1] as nat, 2) + field_line(
        DESC_BCD_USB@,
        (d[3] * 256 + d[2]) as nat,
        4,
    ) + field_line(DESC_CLASS@, d[4] as nat, 2) + field_line(DESC_SUBCLASS@, d[5] as nat, 2) + field_line(
        DESC_PROTOCOL@,
        d[6] as nat,
        2,
    ) + field_line(DESC_MAX_PACKET@, d[7] as nat, 2) + field_line(DESC_VENDOR@, (d[9] * 256 + d[8]) as nat, 4)
        + field_line(DESC_PRODUCT@, (d[11] * 256 + d[10]) as nat, 4) + field_line(DESC_MANUFACTURER@, d[14] as nat, 2)
        + field_line(DESC_IPRODUCT@, d[15] as nat, 2) + field_line(DESC_SERIAL@, d[16] as nat, 2) + field_line(
        DESC_CONFIGS@,
        d[17] as nat,
        2,
    )
}

/// The lines showing the 18-byte device descriptor read from a device.
pub fn dump_device_descriptor(desc: &[u8; 18]) -> (r: Vec<u8>)
    ensures
        r@ == descriptor_text(desc@),
{
    let d = desc;
    let mut out: Vec<u8> = Vec::new();
    push_bytes(&mut out, &DESC_HEAD);
    push_field(&mut out, &DESC_LENGTH, d[0] as u64, 2);
    push_field(&mut out, &DESC_TYPE, d[1] as u64, 2);
    push_field(&mut out, &DESC_BCD_USB, d[3] as u64 * 256 + d[2] as u64, 4);
    push_field(&mut out, &DESC_CLASS, d[4] as u64, 2);
    push_field(&mut out, &DESC_SUBCLASS, d[5] as u64, 2);
    push_field(&mut out, &DESC_PROTOCOL, d[6] as u64, 2);
    push_field(&mut out, &DESC_MAX_PACKET, d[7] as u64, 2);
    push_field(&mut out, &DESC_VENDOR, d[9] as u64 * 256 + d[8] as u64, 4);
    push_field(&mut out, &DESC_PRODUCT, d[11] as u64 * 256 + d[10] as u64, 4);
    push_field(&mut out, &DESC_MANUFACTURER, d[14] as u64, 2);
    push_field(&mut out, &DESC_IPRODUCT, d[15] as u64, 2);
    push_field(&mut out, &DESC_SERIAL, d[16] as u64, 2);
    push_field(&mut out, &DESC_CONFIGS, d[17] as u64, 2);
    assert(out@ =~= descriptor_text(desc@));
    out
}

} // verus!
