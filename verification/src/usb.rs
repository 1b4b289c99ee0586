//! USB stack vocabulary: errors, controller kinds and controller
//! information found on the PCI bus.

use vstd::prelude::*;
use crate::device::{HidKeyboardInfo, UsbDeviceState};
use crate::fmt::{hex_fixed, hex_spec};

verus! {

/// USB error type.
#[derive(PartialEq, Eq, Structural, Debug, Clone, Copy)]
pub enum UsbError {
    /// XHCI controller not found.
    XhciNotFound,
    /// XHCI initialization failed.
    XhciInitFailed,
    /// EHCI controller not found.
    EhciNotFound,
    /// EHCI initialization failed.
    EhciInitFailed,
    /// USB device not found.
    DeviceNotFound,
    /// HID keyboard not found.
    HidKeyboardNotFound,
    /// Timeout.
    Timeout,
}

/// USB controller type.
#[derive(PartialEq, Eq, Structural, Debug, Clone, Copy)]
pub enum UsbControllerType {
    /// xHCI (USB 3.0).
    Xhci,
    /// EHCI (USB 2.0).
    Ehci,
    /// UHCI (USB 1.1).
    Uhci,
    /// OHCI (USB 1.1).
    Ohci,
}

/// XHCI controller information.
#[derive(PartialEq, Eq, Structural, Debug, Clone, Copy)]
pub struct XhciInfo {
    pub mmio_base: u64,
}

/// EHCI controller information.
#[derive(PartialEq, Eq, Structural, Debug, Clone, Copy)]
pub struct EhciInfo {
    pub mmio_base: u64,
}

impl UsbError {
    /// The message shown for the error.
    pub fn as_str(&self) -> (r: &'static str)
        ensures
            *self == UsbError::XhciNotFound ==> r@ == "No xHCI controller found"@,
            *self == UsbError::XhciInitFailed ==> r@ == "xHCI initialization failed"@,
            *self == UsbError::EhciNotFound ==> r@ == "No EHCI controller found"@,
            *self == UsbError::EhciInitFailed ==> r@ == "EHCI initialization failed"@,
            *self == UsbError::DeviceNotFound ==> r@ == "No USB device found"@,
            *self == UsbError::HidKeyboardNotFound ==> r@ == "No HID keyboard found"@,
            *self == UsbError::Timeout ==> r@ == "USB operation timed out"@,
    {
        match self {
            UsbError::XhciNotFound => "No xHCI controller found",
            UsbError::XhciInitFailed => "xHCI initialization failed",
            UsbError::EhciNotFound => "No EHCI controller found",
            UsbError::EhciInitFailed => "EHCI initialization failed",
            UsbError::DeviceNotFound => "No USB device found",
            UsbError::HidKeyboardNotFound => "No HID keyboard found",
            UsbError::Timeout => "USB operation timed out",
        }
    }
}

/// Colour of the USB status pixel: yellow while starting or when no
/// controller exists.
pub const STATUS_YELLOW: (u8, u8, u8) = (0xFF, 0xFF, 0x00);
/// Status pixel: a failure.
pub const STATUS_RED: (u8, u8, u8) = (0xFF, 0x00, 0x00);
/// Status pixel: a keyboard is ready.
pub const STATUS_GREEN: (u8, u8, u8) = (0x00, 0xFF, 0x00);
/// Status pixel: the controller works but no keyboard answered.
pub const STATUS_ORANGE: (u8, u8, u8) = (0xFF, 0xA5, 0x00);

/// Where USB bring-up stands after a controller initialisation attempt.
#[derive(Debug, Clone, Copy)]
pub enum UsbInitStep {
    /// No xHCI controller: try EHCI next.
    TryEhci,
    /// This controller is up.
    Ready(UsbControllerType),
    /// Bring-up failed with this message and status pixel colour.
    Failed(&'static str, (u8, u8, u8)),
}

/// The step after `xhci::init`: xHCI is tried first, and only its absence
/// sends bring-up on to EHCI.
pub fn after_xhci_init(result: Result<(), UsbError>) -> (r: UsbInitStep)
    ensures
        result is Ok ==> r == UsbInitStep::Ready(UsbControllerType::Xhci),
        result == Err::<(), UsbError>(UsbError::XhciNotFound) ==> r == UsbInitStep::TryEhci,
        (result is Err && result != Err::<(), UsbError>(UsbError::XhciNotFound)) ==> (r matches UsbInitStep::Failed(m, c)
            && m@ == "xHCI initialization failed"@ && c == STATUS_RED),
{
    match result {
        Ok(()) => UsbInitStep::Ready(UsbControllerType::Xhci),
        Err(UsbError::XhciNotFound) => UsbInitStep::TryEhci,
        Err(_) => {
            let m = "xHCI initialization failed";
            UsbInitStep::Failed(m, STATUS_RED)
        },
    }
}

/// The step after `ehci::init`, tried when there is no xHCI controller.
pub fn after_ehci_init(result: Result<(), UsbError>) -> (r: UsbInitStep)
    ensures
        result is Ok ==> r == UsbInitStep::Ready(UsbControllerType::Ehci),
        result == Err::<(), UsbError>(UsbError::EhciNotFound) ==> (r matches UsbInitStep::Failed(m, c)
            && m@ == "No USB controller found (neither xHCI nor EHCI)"@ && c == STATUS_YELLOW),
        (result is Err && result != Err::<(), UsbError>(UsbError::EhciNotFound)) ==> (r matches UsbInitStep::Failed(m, c)
            && m@ == "EHCI initialization failed"@ && c == STATUS_RED),
{
    match result {
        Ok(()) => UsbInitStep::Ready(UsbControllerType::Ehci),
        Err(UsbError::EhciNotFound) => UsbInitStep::Failed(
            "No USB controller found (neither xHCI nor EHCI)",
            STATUS_YELLOW,
        ),
        Err(_) => UsbInitStep::Failed("EHCI initialization failed", STATUS_RED),
    }
}

/// The check after the settle delay: a controller that is not running
/// ends bring-up.
pub fn after_running_check(running: bool) -> (r: Result<(), (&'static str, (u8, u8, u8))>)
    ensures
        running ==> r is Ok,
        !running ==> (r matches Err((m, c)) && m@ == "Controller not running"@ && c == STATUS_RED),
{
    if running {
        Ok(())
    } else {
        Err(("Controller not running", STATUS_RED))
    }
}

/// The outcome of keyboard enumeration with its status pixel colour.
pub open spec fn after_enumeration_spec(result: Result<(usize, HidKeyboardInfo), UsbError>) -> (
    Result<(), &'static str>,
    (u8, u8, u8),
) {
    match result {
        Ok(_) => (Ok(()), STATUS_GREEN),
        Err(UsbError::DeviceNotFound) => (Err("No USB device found"), STATUS_ORANGE),
        Err(UsbError::HidKeyboardNotFound) => (Err("No HID keyboard found"), STATUS_ORANGE),
        Err(_) => (Err("USB enumeration failed"), STATUS_RED),
    }
}

/// The outcome of keyboard enumeration, with the status pixel colour:
/// green for a keyboard, orange when no device or no keyboard answered,
/// red for any other failure.
pub fn after_enumeration(result: Result<(usize, HidKeyboardInfo), UsbError>) -> (r: (
    Result<(), &'static str>,
    (u8, u8, u8),
))
    ensures
        result is Ok ==> r.0 is Ok && r.1 == STATUS_GREEN,
        result matches Err(UsbError::DeviceNotFound) ==> (r.0 matches Err(m) && m@ == "No USB device found"@
            && r.1 == STATUS_ORANGE),
        result matches Err(UsbError::HidKeyboardNotFound) ==> (r.0 matches Err(m) && m@
            == "No HID keyboard found"@ && r.1 == STATUS_ORANGE),
        (result is Err && !(result matches Err(UsbError::DeviceNotFound)) && !(result matches Err(
            UsbError::HidKeyboardNotFound,
        ))) ==> (r.0 matches Err(m) && m@ == "USB enumeration failed"@ && r.1 == STATUS_RED),
        r == after_enumeration_spec(result),
{
    match result {
        Ok(_) => (Ok(()), STATUS_GREEN),
        Err(UsbError::DeviceNotFound) => (Err("No USB device found"), STATUS_ORANGE),
        Err(UsbError::HidKeyboardNotFound) => (Err("No HID keyboard found"), STATUS_ORANGE),
        Err(_) => (Err("USB enumeration failed"), STATUS_RED),
    }
}

/// The whole bring-up decided from what each stage reported: xHCI first,
/// EHCI only when there is no xHCI controller (`ehci` is that attempt's
/// result, not consulted otherwise), then the running check, then
/// enumeration. Returns the result and the final status pixel colour.
pub fn init_outcome(
    xhci: Result<(), UsbError>,
    ehci: Result<(), UsbError>,
    running: bool,
    enumeration: Result<(usize, HidKeyboardInfo), UsbError>,
) -> (r: (Result<(), &'static str>, (u8, u8, u8)))
    ensures
        r.0 is Ok <==> ((xhci is Ok || (xhci == Err::<(), UsbError>(UsbError::XhciNotFound) && ehci is Ok))
            && running && enumeration is Ok),
        r.0 is Ok ==> r.1 == STATUS_GREEN,
        (xhci == Err::<(), UsbError>(UsbError::XhciNotFound) && ehci == Err::<(), UsbError>(UsbError::EhciNotFound))
            ==> (r.0 matches Err(m) && m@ == "No USB controller found (neither xHCI nor EHCI)"@ && r.1
            == STATUS_YELLOW),
        (xhci is Err && xhci != Err::<(), UsbError>(UsbError::XhciNotFound)) ==> (r.0 matches Err(m) && m@
            == "xHCI initialization failed"@ && r.1 == STATUS_RED),
        (xhci == Err::<(), UsbError>(UsbError::XhciNotFound) && ehci is Err && ehci != Err::<(), UsbError>(
            UsbError::EhciNotFound,
        )) ==> (r.0 matches Err(m) && m@ == "EHCI initialization failed"@ && r.1 == STATUS_RED),
        ((xhci is Ok || (xhci == Err::<(), UsbError>(UsbError::XhciNotFound) && ehci is Ok)) && !running) ==> (r.0 matches Err(
            m,
        ) && m@ == "Controller not running"@ && r.1 == STATUS_RED),
        ((xhci is Ok || (xhci == Err::<(), UsbError>(UsbError::XhciNotFound) && ehci is Ok)) && running) ==> r
            == after_enumeration_spec(enumeration),
{
    let step = match after_xhci_init(xhci) {
        UsbInitStep::TryEhci => after_ehci_init(ehci),
        other => other,
    };
    match step {
        UsbInitStep::Failed(m, c) => (Err(m), c),
        UsbInitStep::TryEhci => (Err("Controller not available after init"), STATUS_RED),
        UsbInitStep::Ready(_) => match after_running_check(running) {
            Err((m, c)) => (Err(m), c),
            Ok(()) => after_enumeration(enumeration),
        },
    }
}

/// The diagnostics line naming a controller and its MMIO base: "xHCI: MMIO
/// base = 0x" (or "EHCI: ...") and the low 32 bits of the base as eight
/// upper-case hexadecimal digits, then a newline.
pub fn controller_base_line(kind: UsbControllerType, mmio_base: u64) -> (r: Vec<u8>)
    ensures
        kind == UsbControllerType::Ehci ==> r@ == seq![69u8, 72, 67, 73] + seq![58u8, 32, 77, 77, 73, 79, 32, 98, 97, 115, 101, 32, 61, 32, 48, 120]
            + hex_spec(mmio_base as u32 as nat, 8) + seq![10u8],
        kind != UsbControllerType::Ehci ==> r@ == seq![120u8, 72, 67, 73] + seq![58u8, 32, 77, 77, 73, 79, 32, 98, 97, 115, 101, 32, 61, 32, 48, 120]
            + hex_spec(mmio_base as u32 as nat, 8) + seq![10u8],
{
    let mut r: Vec<u8> = Vec::new();
    if kind == UsbControllerType::Ehci {
        r.push(69);
    } else {
        r.push(120);
    }
    r.push(72);
    r.push(67);
    r.push(73);
    let tail: [u8; 16] = [58, 32, 77, 77, 73, 79, 32, 98, 97, 115, 101, 32, 61, 32, 48, 120];
    let mut i: usize = 0;
    let ghost head = r@;
    while i < 16
        invariant
            0 <= i <= 16,
            head.len() == 4,
            r@ == head + tail@.subrange(0, i as int),
        decreases 16 - i,
    {
        r.push(tail[i]);
        proof {
            assert(tail@.subrange(0, i + 1) =~= tail@.subrange(0, i as int).push(tail@[i as int]));
        }
        i = i + 1;
    }
    let low = mmio_base as u32;
    let digits = hex_fixed(low as u64, 8);
    let mut j: usize = 0;
    let ghost mid = r@;
    while j < digits.len()
        invariant
            0 <= j <= digits.len(),
            r@ == mid + digits@.subrange(0, j as int),
        decreases digits.len() - j,
    {
        r.push(digits[j]);
        proof {
            assert(digits@.subrange(0, j + 1) =~= digits@.subrange(0, j as int).push(digits@[j as int]));
        }
        j = j + 1;
    }
    r.push(10);
    proof {
        assert(tail@.subrange(0, 16) =~= seq![58u8, 32, 77, 77, 73, 79, 32, 98, 97, 115, 101, 32, 61, 32, 48, 120]);
        assert(digits@.subrange(0, digits@.len() as int) =~= digits@);
        if kind == UsbControllerType::Ehci {
            assert(head =~= seq![69u8, 72, 67, 73]);
        } else {
            assert(head =~= seq![120u8, 72, 67, 73]);
        }
    }
    r
}

/// Whether the USB keyboard is usable: an xHCI controller is up and a
/// keyboard has been enumerated.
pub fn is_keyboard_available(xhci_present: bool, device: &UsbDeviceState) -> (r: bool)
    ensures
        r == (xhci_present && device.hid_keyboard is Some),
{
    xhci_present && crate::device::has_hid_keyboard(device)
}

} // verus!
