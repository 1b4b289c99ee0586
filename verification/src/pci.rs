//! PCI side of USB bring-up: configuration-space addressing, register
//! field decoding, BAR0 decoding and the choice of the USB controller to
//! drive (xHCI over EHCI over the USB 1.1 kinds).

use vstd::prelude::*;
use crate::usb::{EhciInfo, UsbControllerType, UsbError, XhciInfo};
use crate::fmt::{hex_spec, push_hex};
use crate::shell::push_bytes;

verus! {

/// PCI configuration access mechanism 1 ports.
pub const PCI_CONFIG_ADDRESS: u16 = 0xCF8;
pub const PCI_CONFIG_DATA: u16 = 0xCFC;

/// PCI class codes for USB controllers.
pub const PCI_CLASS_SERIAL_BUS: u8 = 0x0C;
pub const PCI_SUBCLASS_USB: u8 = 0x03;
pub const PCI_PROG_IF_UHCI: u8 = 0x00;
pub const PCI_PROG_IF_OHCI: u8 = 0x10;
pub const PCI_PROG_IF_EHCI: u8 = 0x20;
pub const PCI_PROG_IF_XHCI: u8 = 0x30;

/// PCI configuration registers.
pub const PCI_VENDOR_ID: u8 = 0x00;
pub const PCI_DEVICE_ID: u8 = 0x02;
pub const PCI_COMMAND: u8 = 0x04;
pub const PCI_CLASS_CODE: u8 = 0x08;
pub const PCI_SUBCLASS_CODE: u8 = 0x09;
pub const PCI_PROG_IF: u8 = 0x0A;
pub const PCI_HEADER_TYPE: u8 = 0x0E;
pub const PCI_BAR0: u8 = 0x10;
pub const PCI_BAR1: u8 = 0x14;
pub const PCI_BAR2: u8 = 0x18;
pub const PCI_BAR3: u8 = 0x1C;
pub const PCI_BAR4: u8 = 0x20;
pub const PCI_BAR5: u8 = 0x24;

/// Header type bit of a multi-function device.
pub const HEADER_TYPE_MULTIFUNCTION: u8 = 0x80;

/// PCI-to-PCI bridge class and subclass, and its bus number registers.
pub const PCI_CLASS_BRIDGE: u8 = 0x06;
pub const PCI_SUBCLASS_PCI_PCI: u8 = 0x04;
pub const PCI_PRIMARY_BUS: u8 = 0x18;
pub const PCI_SECONDARY_BUS: u8 = 0x19;
pub const PCI_SUBORDINATE_BUS: u8 = 0x1A;

/// BAR type bits.
pub const BAR_TYPE_MASK: u32 = 0x0F;
pub const BAR_TYPE_64BIT: u32 = 0x04;
pub const BAR_TYPE_MEMORY: u32 = 0x00;

/// Vendor ID read from an empty slot.
pub const PCI_NO_DEVICE: u16 = 0xFFFF;

/// The CONFIG_ADDRESS value selecting a dword register of a function:
/// enable bit, bus in bits 16-23, device from bit 11, function from bit 8
/// and the register with its two low bits cleared.
pub fn pci_config_address(bus: u8, device: u8, function: u8, reg: u8) -> (r: u32)
    ensures
        r == 0x8000_0000u32 | ((bus as u32) << 16u32) | ((device as u32) << 11u32) | ((function as u32)
            << 8u32) | ((reg as u32) & 0xFCu32),
        device < 32 && function < 8 ==> r == 0x8000_0000 + bus * 0x1_0000 + device * 0x800 + function * 0x100
            + reg - reg % 4,
{
    let b = bus as u32;
    let d = device as u32;
    let f = function as u32;
    let g = reg as u32;
    let r = 0x8000_0000u32 | (b << 16u32) | (d << 11u32) | (f << 8u32) | (g & 0xFCu32);
    assert(d < 32 && f < 8 ==> 0x8000_0000u32 | (b << 16u32) | (d << 11u32) | (f << 8u32) | (g & 0xFCu32)
        == 0x8000_0000 + b * 0x1_0000 + d * 0x800 + f * 0x100 + g - g % 4) by (bit_vector)
        requires
            b < 0x100,
            g < 0x100,
    ;
    r
}

/// Devices scanned on a bus: all 32 device numbers, on every bus.
pub fn devices_on_bus(bus: u8) -> (r: u8)
    ensures
        r == 32,
{
    32
}

/// Vendor and device IDs of configuration dword 0.
pub fn vendor_device_ids(vendor_device: u32) -> (r: (u16, u16))
    ensures
        r.0 == vendor_device % 0x1_0000,
        r.1 == vendor_device / 0x1_0000,
{
    let vendor = (vendor_device & 0xFFFF) as u16;
    let device = ((vendor_device >> 16) & 0xFFFF) as u16;
    proof {
        crate::bits::lemma_u32_fields();
    }
    (vendor, device)
}

/// Class, subclass and programming interface of configuration dword 8
/// (bits 24-31, 16-23 and 8-15).
pub fn class_fields(class_reg: u32) -> (r: (u8, u8, u8))
    ensures
        r.0 == class_reg / 0x100_0000,
        r.1 == (class_reg / 0x1_0000) % 0x100,
        r.2 == (class_reg / 0x100) % 0x100,
{
    let class = ((class_reg >> 24) & 0xFF) as u8;
    let subclass = ((class_reg >> 16) & 0xFF) as u8;
    let prog_if = ((class_reg >> 8) & 0xFF) as u8;
    proof {
        crate::bits::lemma_u32_fields();
    }
    (class, subclass, prog_if)
}

/// Header type of configuration dword 0x0C (bits 16-23).
pub fn header_type_field(header_reg: u32) -> (r: u8)
    ensures
        r == (header_reg / 0x1_0000) % 0x100,
{
    proof {
        crate::bits::lemma_u32_fields();
    }
    ((header_reg >> 16) & 0xFF) as u8
}

/// Whether a class and subclass are those of a USB host controller.
pub fn is_usb_controller(class: u8, subclass: u8) -> (r: bool)
    ensures
        r == (class == PCI_CLASS_SERIAL_BUS && subclass == PCI_SUBCLASS_USB),
{
    class == PCI_CLASS_SERIAL_BUS && subclass == PCI_SUBCLASS_USB
}

/// Whether a class and subclass are those of a PCI-to-PCI bridge.
pub fn is_pci_bridge(class: u8, subclass: u8) -> (r: bool)
    ensures
        r == (class == PCI_CLASS_BRIDGE && subclass == PCI_SUBCLASS_PCI_PCI),
{
    class == PCI_CLASS_BRIDGE && subclass == PCI_SUBCLASS_PCI_PCI
}

/// The controller kind a USB programming interface denotes; an unknown
/// interface is driven as xHCI.
pub open spec fn controller_type_of(prog_if: u8) -> UsbControllerType {
    if prog_if == PCI_PROG_IF_EHCI {
        UsbControllerType::Ehci
    } else if prog_if == PCI_PROG_IF_UHCI {
        UsbControllerType::Uhci
    } else if prog_if == PCI_PROG_IF_OHCI {
        UsbControllerType::Ohci
    } else {
        UsbControllerType::Xhci
    }
}

/// Controller kind of a USB programming interface.
pub fn classify_prog_if(prog_if: u8) -> (r: UsbControllerType)
    ensures
        r == controller_type_of(prog_if),
{
    match prog_if {
        PCI_PROG_IF_XHCI => UsbControllerType::Xhci,
        PCI_PROG_IF_EHCI => UsbControllerType::Ehci,
        PCI_PROG_IF_UHCI => UsbControllerType::Uhci,
        PCI_PROG_IF_OHCI => UsbControllerType::Ohci,
        _ => UsbControllerType::Xhci,
    }
}

/// The memory base BAR0 gives (with BAR1 as the high half of a 64-bit
/// BAR): none for an I/O BAR, a reserved type or a zero base.
pub open spec fn bar0_base(bar0: u32, bar1: u32) -> Option<u64> {
    let low = bar0 as int - bar0 as int % 16;
    if bar0 % 2 == 1 {
        None
    } else if bar0 % 16 == 0 {
        if low == 0 {
            None
        } else {
            Some(low as u64)
        }
    } else if bar0 % 16 == 4 {
        let base = bar1 as int * 0x1_0000_0000 + low;
        if base == 0 {
            None
        } else {
            Some(base as u64)
        }
    } else {
        None
    }
}

/// Whether BAR0 is a 64-bit memory BAR, whose high half is BAR1.
pub fn bar0_is_64bit(bar0: u32) -> (r: bool)
    ensures
        r == (bar0 % 16 == 4),
{
    proof {
        crate::bits::lemma_u32_fields();
    }
    assert(bar0 & BAR_TYPE_MASK == bar0 % 16);
    bar0 & BAR_TYPE_MASK == BAR_TYPE_64BIT
}

/// How a BAR decodes. An I/O BAR (bit 0 set) gives no memory base. A
/// 32-bit memory BAR (type bits 0b000) gives BAR0 with its low 4 bits
/// cleared. A 64-bit memory BAR (type bits 0b100) gives the base whose
/// high 32 bits are BAR1 and whose low 32 bits are BAR0 with its low 4 bits
/// cleared. A zero base is no base.
pub proof fn lemma_bar0_decoding(bar0: u32, bar1: u32)
    ensures
        bar0 % 2 == 1 ==> bar0_base(bar0, bar1) is None,
        bar0 % 16 == 0 ==> (if bar0 >= 16 {
            bar0_base(bar0, bar1) matches Some(b) && b == bar0 - bar0 % 16
        } else {
            bar0_base(bar0, bar1) is None
        }),
        bar0 % 16 == 4 ==> (if bar1 > 0 || bar0 >= 16 {
            bar0_base(bar0, bar1) matches Some(b) && b / 0x1_0000_0000 == bar1 && b % 0x1_0000_0000 == bar0
                - bar0 % 16
        } else {
            bar0_base(bar0, bar1) is None
        }),
        bar0 % 16 != 0 && bar0 % 16 != 4 ==> bar0_base(bar0, bar1) is None,
{
    let low = bar0 as int - bar0 as int % 16;
    let joined = low + 0x1_0000_0000 * bar1;
    assert(0 <= low < 0x1_0000_0000);
    assert(joined / 0x1_0000_0000 == bar1 && joined % 0x1_0000_0000 == low) by (nonlinear_arith)
        requires
            joined == low + 0x1_0000_0000 * bar1,
            0 <= low < 0x1_0000_0000,
    ;
    assert(joined <= u64::MAX) by (nonlinear_arith)
        requires
            joined == low + 0x1_0000_0000 * bar1,
            0 <= low < 0x1_0000_0000,
            bar1 <= u32::MAX,
    ;
}

/// Decodes BAR0 (and BAR1 for a 64-bit BAR) into the MMIO base.
pub fn get_bar0_mmio(bar0: u32, bar1: u32) -> (r: Option<u64>)
    ensures
        r == bar0_base(bar0, bar1),
{
    proof {
        crate::bits::lemma_u32_fields();
    }
    assert(bar0 & 0x01 == bar0 % 2);
    assert(bar0 & BAR_TYPE_MASK == bar0 % 16);
    assert(bar0 & 0xFFFF_FFF0 == bar0 - bar0 % 16);
    if bar0 & 0x01 != 0 {
        return None;
    }
    let bar_type = bar0 & BAR_TYPE_MASK;
    if bar_type == BAR_TYPE_MEMORY {
        let base = bar0 & 0xFFFF_FFF0;
        if base == 0 {
            None
        } else {
            Some(base as u64)
        }
    } else if bar_type == BAR_TYPE_64BIT {
        let hi = bar1 as u64;
        let lo = (bar0 & 0xFFFF_FFF0) as u64;
        let base = (hi << 32u64) | lo;
        proof {
            crate::bits::lemma_join_halves(hi, lo);
        }
        if base == 0 {
            None
        } else {
            Some(base)
        }
    } else {
        None
    }
}

/// The command register value that enables memory space and bus
/// mastering.
pub fn bus_master_command(command: u32) -> (r: u32)
    ensures
        r == command | 0x06,
{
    command | 0x06
}

/// A USB host controller found by the scan, in scan order: its location,
/// its programming interface and the MMIO base its BAR0 gave.
#[derive(PartialEq, Eq, Structural, Debug, Clone, Copy)]
pub struct PciUsbCandidate {
    pub bus: u8,
    pub device: u8,
    pub function: u8,
    pub prog_if: u8,
    pub mmio_base: Option<u64>,
}

/// A candidate with an MMIO base, of the given kind.
pub open spec fn usable_of(c: PciUsbCandidate, t: UsbControllerType) -> bool {
    c.mmio_base is Some && controller_type_of(c.prog_if) == t
}

/// No candidate in `lo..hi` is a usable controller of kind `t`.
pub open spec fn none_usable(s: Seq<PciUsbCandidate>, lo: int, hi: int, t: UsbControllerType) -> bool {
    forall|j: int| lo <= j < hi ==> !usable_of(#[trigger] s[j], t)
}

/// No candidate before `hi` has an MMIO base.
pub open spec fn none_based(s: Seq<PciUsbCandidate>, hi: int) -> bool {
    forall|j: int| 0 <= j < hi ==> (#[trigger] s[j]).mmio_base is None
}

/// The scan's choice among the candidates, in scan order, of those with an
/// MMIO base: the first xHCI; failing that the last EHCI; failing that the
/// first of the others; `XhciNotFound` when none has a base.
#[verifier::opaque]
pub open spec fn best_controller(cands: Seq<PciUsbCandidate>) -> Result<(UsbControllerType, u64), UsbError> {
    let n = cands.len() as int;
    if exists|i: int| 0 <= i < n && usable_of(cands[i], UsbControllerType::Xhci) {
        let i = choose|i: int|
            0 <= i < n && usable_of(cands[i], UsbControllerType::Xhci) && none_usable(
                cands,
                0,
                i,
                UsbControllerType::Xhci,
            );
        Ok((UsbControllerType::Xhci, cands[i].mmio_base->0))
    } else if exists|i: int| 0 <= i < n && usable_of(cands[i], UsbControllerType::Ehci) {
        let i = choose|i: int|
            0 <= i < n && usable_of(cands[i], UsbControllerType::Ehci) && none_usable(
                cands,
                i + 1,
                n,
                UsbControllerType::Ehci,
            );
        Ok((UsbControllerType::Ehci, cands[i].mmio_base->0))
    } else if exists|i: int| 0 <= i < n && cands[i].mmio_base is Some {
        let i = choose|i: int| 0 <= i < n && cands[i].mmio_base is Some && none_based(cands, i);
        Ok((controller_type_of(cands[i].prog_if), cands[i].mmio_base->0))
    } else {
        Err(UsbError::XhciNotFound)
    }
}

/// The choice is the first usable xHCI where there is one.
pub proof fn lemma_best_first_xhci(s: Seq<PciUsbCandidate>, i: int)
    requires
        0 <= i < s.len(),
        usable_of(s[i], UsbControllerType::Xhci),
        none_usable(s, 0, i, UsbControllerType::Xhci),
    ensures
        best_controller(s) == Ok::<(UsbControllerType, u64), UsbError>(
            (UsbControllerType::Xhci, s[i].mmio_base->0),
        ),
{
    reveal(best_controller);
    let k = choose|k: int|
        0 <= k < s.len() && usable_of(s[k], UsbControllerType::Xhci) && none_usable(
            s,
            0,
            k,
            UsbControllerType::Xhci,
        );
    assert(0 <= k < s.len() && usable_of(s[k], UsbControllerType::Xhci) && none_usable(
        s,
        0,
        k,
        UsbControllerType::Xhci,
    ));
    if k < i {
        assert(!usable_of(s[k], UsbControllerType::Xhci));
    } else if k > i {
        assert(!usable_of(s[i], UsbControllerType::Xhci));
    }
}

/// Without a usable xHCI, the choice is the last usable EHCI where there
/// is one.
pub proof fn lemma_best_last_ehci(s: Seq<PciUsbCandidate>, i: int)
    requires
        0 <= i < s.len(),
        none_usable(s, 0, s.len() as int, UsbControllerType::Xhci),
        usable_of(s[i], UsbControllerType::Ehci),
        none_usable(s, i + 1, s.len() as int, UsbControllerType::Ehci),
    ensures
        best_controller(s) == Ok::<(UsbControllerType, u64), UsbError>(
            (UsbControllerType::Ehci, s[i].mmio_base->0),
        ),
{
    reveal(best_controller);
    let n = s.len() as int;
    assert(!exists|j: int| 0 <= j < n && usable_of(s[j], UsbControllerType::Xhci));
    let k = choose|k: int|
        0 <= k < n && usable_of(s[k], UsbControllerType::Ehci) && none_usable(
            s,
            k + 1,
            n,
            UsbControllerType::Ehci,
        );
    assert(0 <= k < n && usable_of(s[k], UsbControllerType::Ehci) && none_usable(
        s,
        k + 1,
        n,
        UsbControllerType::Ehci,
    ));
    if k < i {
        assert(!usable_of(s[i], UsbControllerType::Ehci));
    } else if k > i {
        assert(!usable_of(s[k], UsbControllerType::Ehci));
    }
}

/// Without a usable xHCI or EHCI, the choice is the first candidate with
/// a base.
pub proof fn lemma_best_first_other(s: Seq<PciUsbCandidate>, i: int)
    requires
        0 <= i < s.len(),
        none_usable(s, 0, s.len() as int, UsbControllerType::Xhci),
        none_usable(s, 0, s.len() as int, UsbControllerType::Ehci),
        s[i].mmio_base is Some,
        none_based(s, i),
    ensures
        best_controller(s) == Ok::<(UsbControllerType, u64), UsbError>(
            (controller_type_of(s[i].prog_if), s[i].mmio_base->0),
        ),
{
    reveal(best_controller);
    let n = s.len() as int;
    assert(!exists|j: int| 0 <= j < n && usable_of(s[j], UsbControllerType::Xhci));
    assert(!exists|j: int| 0 <= j < n && usable_of(s[j], UsbControllerType::Ehci));
    let k = choose|k: int| 0 <= k < n && s[k].mmio_base is Some && none_based(s, k);
    assert(0 <= k < n && s[k].mmio_base is Some && none_based(s, k));
    if k < i {
        assert(s[k].mmio_base is None);
    } else if k > i {
        assert(s[i].mmio_base is None);
    }
}

/// Without any candidate with a base, the scan finds nothing.
pub proof fn lemma_best_none(s: Seq<PciUsbCandidate>)
    requires
        none_based(s, s.len() as int),
    ensures
        best_controller(s) == Err::<(UsbControllerType, u64), UsbError>(UsbError::XhciNotFound),
{
    reveal(best_controller);
    let n = s.len() as int;
    assert(!exists|j: int| 0 <= j < n && usable_of(s[j], UsbControllerType::Xhci));
    assert(!exists|j: int| 0 <= j < n && usable_of(s[j], UsbControllerType::Ehci));
}

/// Chooses the USB controller to drive among the candidates the scan
/// found, in scan order; the choice is settled at the first usable xHCI.
pub fn scan_for_usb_controller(cands: &Vec<PciUsbCandidate>) -> (r: Result<(UsbControllerType, u64), UsbError>)
    ensures
        r == best_controller(cands@),
{
    let ghost s = cands@;
    let mut best: Option<(UsbControllerType, u64)> = None;
    let ghost mut bi: int = 0;
    let mut i: usize = 0;
    while i < cands.len()
        invariant
            s == cands@,
            0 <= i <= s.len(),
            none_usable(s, 0, i as int, UsbControllerType::Xhci),
            best is None <==> none_based(s, i as int),
            best matches Some((t, b)) ==> {
                &&& 0 <= bi < i
                &&& s[bi].mmio_base == Some(b)
                &&& controller_type_of(s[bi].prog_if) == t
                &&& t != UsbControllerType::Xhci
                &&& t == UsbControllerType::Ehci ==> none_usable(s, bi + 1, i as int, UsbControllerType::Ehci)
                &&& t != UsbControllerType::Ehci ==> none_usable(s, 0, i as int, UsbControllerType::Ehci)
                    && none_based(s, bi)
            },
        decreases s.len() - i,
    {
        let c = cands[i];
        match c.mmio_base {
            None => {},
            Some(base) => {
                let t = classify_prog_if(c.prog_if);
                let best_is_xhci = match best {
                    Some((UsbControllerType::Xhci, _)) => true,
                    _ => false,
                };
                if best.is_none() || t == UsbControllerType::Xhci || (t == UsbControllerType::Ehci
                    && !best_is_xhci) {
                    best = Some((t, base));
                    proof {
                        bi = i as int;
                    }
                }
                if t == UsbControllerType::Xhci {
                    proof {
                        lemma_best_first_xhci(s, i as int);
                    }
                    return Ok((t, base));
                }
            },
        }
        i = i + 1;
    }
    match best {
        Some((t, b)) => {
            proof {
                if t == UsbControllerType::Ehci {
                    lemma_best_last_ehci(s, bi);
                } else {
                    lemma_best_first_other(s, bi);
                }
            }
            Ok((t, b))
        },
        None => {
            proof {
                lemma_best_none(s);
            }
            Err(UsbError::XhciNotFound)
        },
    }
}

/// The xHCI controller of the scan, if the scan chose one.
pub fn scan_for_xhci(cands: &Vec<PciUsbCandidate>) -> (r: Result<XhciInfo, UsbError>)
    ensures
        match best_controller(cands@) {
            Ok((UsbControllerType::Xhci, b)) => r == Ok::<XhciInfo, UsbError>(XhciInfo { mmio_base: b }),
            Ok(_) => r == Err::<XhciInfo, UsbError>(UsbError::XhciNotFound),
            Err(e) => r == Err::<XhciInfo, UsbError>(e),
        },
{
    match scan_for_usb_controller(cands) {
        Ok((UsbControllerType::Xhci, mmio_base)) => Ok(XhciInfo { mmio_base }),
        Ok(_) => Err(UsbError::XhciNotFound),
        Err(e) => Err(e),
    }
}

/// The EHCI controller of the scan, if the scan chose one.
pub fn scan_for_ehci(cands: &Vec<PciUsbCandidate>) -> (r: Result<EhciInfo, UsbError>)
    ensures
        match best_controller(cands@) {
            Ok((UsbControllerType::Ehci, b)) => r == Ok::<EhciInfo, UsbError>(EhciInfo { mmio_base: b }),
            Ok(_) => r == Err::<EhciInfo, UsbError>(UsbError::EhciNotFound),
            Err(e) => r == Err::<EhciInfo, UsbError>(e),
        },
{
    match scan_for_usb_controller(cands) {
        Ok((UsbControllerType::Ehci, mmio_base)) => Ok(EhciInfo { mmio_base }),
        Ok(_) => Err(UsbError::EhciNotFound),
        Err(e) => Err(e),
    }
}

/// "PCI: "
pub const PCI_PREFIX: [u8; 5] = [80, 67, 73, 58, 32];

/// " vendor="
pub const VENDOR_LABEL: [u8; 8] = [32, 118, 101, 110, 100, 111, 114, 61];

/// " device="
pub const DEVICE_LABEL: [u8; 8] = [32, 100, 101, 118, 105, 99, 101, 61];

/// " class="
pub const CLASS_LABEL: [u8; 7] = [32, 99, 108, 97, 115, 115, 61];

/// " sub="
pub const SUB_LABEL: [u8; 5] = [32, 115, 117, 98, 61];

/// " if="
pub const IF_LABEL: [u8; 4] = [32, 105, 102, 61];

/// " hdr="
pub const HDR_LABEL: [u8; 5] = [32, 104, 100, 114, 61];

/// " [USB]"
pub const USB_TAG: [u8; 6] = [32, 91, 85, 83, 66, 93];

/// " [BRIDGE] buses="
pub const BRIDGE_TAG: [u8; 16] = [32, 91, 66, 82, 73, 68, 71, 69, 93, 32, 98, 117, 115, 101, 115, 61];

/// " [INTEL]"
pub const INTEL_TAG: [u8; 8] = [32, 91, 73, 78, 84, 69, 76, 93];

/// "  BAR"
pub const BAR_LABEL: [u8; 5] = [32, 32, 66, 65, 82];

/// " = 0x"
pub const BAR_EQ: [u8; 5] = [32, 61, 32, 48, 120];

/// " [I/O]"
pub const IO_TAG: [u8; 6] = [32, 91, 73, 47, 79, 93];

/// " [MEM]"
pub const MEM_TAG: [u8; 6] = [32, 91, 77, 69, 77, 93];

/// The digit printed for a function number, `?` beyond 7.
pub open spec fn function_digit(f: u8) -> u8 {
    if f < 8 {
        (48 + f) as u8
    } else {
        63
    }
}

/// The line of a non-zero BAR `i`: its number, its value as eight
/// hexadecimal digits and whether it maps I/O or memory.
pub open spec fn bar_line(i: int, bar: u32) -> Seq<u8> {
    if bar == 0 {
        Seq::empty()
    } else {
        BAR_LABEL@ + seq![(48 + i) as u8] + BAR_EQ@ + hex_spec(bar as nat, 8) + (if bar % 2 == 1 {
            IO_TAG@
        } else {
            MEM_TAG@
        }) + seq![10u8]
    }
}

/// The lines of the first `n` BARs.
pub open spec fn bar_lines(bars: Seq<u32>, n: int) -> Seq<u8>
    decreases n,
{
    if n <= 0 {
        Seq::empty()
    } else {
        bar_lines(bars, n - 1) + bar_line(n - 1, bars[n - 1])
    }
}

/// "PCI: bb:dd.f": the function's address.
pub open spec fn pci_address_text(bus: u8, device: u8, function: u8) -> Seq<u8> {
    PCI_PREFIX@ + hex_spec(bus as nat, 2) + seq![58u8] + hex_spec(device as nat, 2) + seq![46u8, function_digit(function)]
}

/// The IDs, class codes and header type in hexadecimal.
pub open spec fn pci_ids_text(
    vendor_id: u16,
    device_id: u16,
    class: u8,
    subclass: u8,
    prog_if: u8,
    header_type: u8,
) -> Seq<u8> {
    VENDOR_LABEL@ + hex_spec(vendor_id as nat, 4) + DEVICE_LABEL@ + hex_spec(device_id as nat, 4) + CLASS_LABEL@
        + hex_spec(class as nat, 2) + SUB_LABEL@ + hex_spec(subclass as nat, 2) + IF_LABEL@ + hex_spec(prog_if as nat, 2)
        + HDR_LABEL@ + hex_spec(header_type as nat, 2)
}

/// The tags: `[USB]` for a USB controller, else `[BRIDGE]` with the bus
/// numbers (one character each) for a PCI-to-PCI bridge; then `[INTEL]`
/// for Intel's vendor ID.
pub open spec fn pci_tags_text(class: u8, subclass: u8, vendor_id: u16, buses: (u8, u8, u8)) -> Seq<u8> {
    (if class == PCI_CLASS_SERIAL_BUS && subclass == PCI_SUBCLASS_USB {
        USB_TAG@
    } else if class == PCI_CLASS_BRIDGE && subclass == PCI_SUBCLASS_PCI_PCI {
        BRIDGE_TAG@ + seq![(48 + buses.0) as u8, 45u8, (48 + buses.1) as u8, 45u8, (48 + buses.2) as u8]
    } else {
        Seq::empty()
    }) + (if vendor_id == 0x8086 {
        INTEL_TAG@
    } else {
        Seq::empty()
    })
}

/// The diagnostic report of a PCI function: address, IDs, class codes
/// and header type, the tags and a newline, then for a USB controller a
/// line per non-zero BAR.
pub open spec fn pci_device_text(
    bus: u8,
    device: u8,
    function: u8,
    vendor_id: u16,
    device_id: u16,
    class: u8,
    subclass: u8,
    prog_if: u8,
    header_type: u8,
    buses: (u8, u8, u8),
    bars: Seq<u32>,
) -> Seq<u8> {
    pci_address_text(bus, device, function) + pci_ids_text(vendor_id, device_id, class, subclass, prog_if, header_type)
        + pci_tags_text(class, subclass, vendor_id, buses) + seq![10u8] + (if class == PCI_CLASS_SERIAL_BUS && subclass
        == PCI_SUBCLASS_USB {
        bar_lines(bars, 6)
    } else {
        Seq::empty()
    })
}

fn push_address(out: &mut Vec<u8>, bus: u8, device: u8, function: u8)
    ensures
        final(out)@ == old(out)@ + pci_address_text(bus, device, function),
{
    let ghost start = out@;
    push_bytes(out, &PCI_PREFIX);
    push_hex(out, bus as u64, 2);
    out.push(58);
    push_hex(out, device as u64, 2);
    out.push(46);
    out.push(if function < 8 { 48 + function } else { 63 });
    assert(out@ =~= start + pci_address_text(bus, device, function));
}

fn push_ids(out: &mut Vec<u8>, vendor_id: u16, device_id: u16, class: u8, subclass: u8, prog_if: u8, header_type: u8)
    ensures
        final(out)@ == old(out)@ + pci_ids_text(vendor_id, device_id, class, subclass, prog_if, header_type),
{
    let ghost start = out@;
    push_bytes(out, &VENDOR_LABEL);
    push_hex(out, vendor_id as u64, 4);
    push_bytes(out, &DEVICE_LABEL);
    push_hex(out, device_id as u64, 4);
    let ghost mid = out@;
    push_bytes(out, &CLASS_LABEL);
    push_hex(out, class as u64, 2);
    push_bytes(out, &SUB_LABEL);
    push_hex(out, subclass as u64, 2);
    push_bytes(out, &IF_LABEL);
    push_hex(out, prog_if as u64, 2);
    push_bytes(out, &HDR_LABEL);
    push_hex(out, header_type as u64, 2);
    assert(out@ =~= start + pci_ids_text(vendor_id, device_id, class, subclass, prog_if, header_type));
}

fn push_tags(out: &mut Vec<u8>, class: u8, subclass: u8, vendor_id: u16, buses: (u8, u8, u8))
    requires
        class == PCI_CLASS_BRIDGE && subclass == PCI_SUBCLASS_PCI_PCI ==> buses.0 < 80 && buses.1 < 80 && buses.2 < 80,
    ensures
        final(out)@ == old(out)@ + pci_tags_text(class, subclass, vendor_id, buses),
{
    let ghost start = out@;
    if is_usb_controller(class, subclass) {
        push_bytes(out, &USB_TAG);
    } else if is_pci_bridge(class, subclass) {
        push_bytes(out, &BRIDGE_TAG);
        out.push(48 + buses.0);
        out.push(45);
        out.push(48 + buses.1);
        out.push(45);
        out.push(48 + buses.2);
    }
    let ghost tagged = out@;
    if vendor_id == 0x8086 {
        push_bytes(out, &INTEL_TAG);
    }
    assert(out@ =~= start + pci_tags_text(class, subclass, vendor_id, buses));
}

/// The lines of the six BARs of a USB controller.
pub fn usb_bar_lines(bars: &[u32; 6]) -> (r: Vec<u8>)
    ensures
        r@ == bar_lines(bars@, 6),
{
    let mut out: Vec<u8> = Vec::new();
    let mut i: usize = 0;
    while i < 6
        invariant
            0 <= i <= 6,
            out@ == bar_lines(bars@, i as int),
        decreases 6 - i,
    {
        let bar = bars[i];
        let ghost before = out@;
        if bar != 0 {
            push_bytes(&mut out, &BAR_LABEL);
            out.push(48 + i as u8);
            push_bytes(&mut out, &BAR_EQ);
            push_hex(&mut out, bar as u64, 8);
            proof {
                crate::bits::lemma_u32_fields();
            }
            if bar & 0x01 != 0 {
                push_bytes(&mut out, &IO_TAG);
            } else {
                push_bytes(&mut out, &MEM_TAG);
            }
            out.push(10);
        }
        assert(out@ =~= before + bar_line(i as int, bars@[i as int]));
        i = i + 1;
    }
    out
}

/// The diagnostic report of a PCI function found by the scan. `buses`
/// are the bridge's primary, secondary and subordinate bus numbers (read
/// for a PCI-to-PCI bridge, printed as one character each) and `bars` the
/// six BARs (read for a USB controller).
pub fn dump_pci_device(
    bus: u8,
    device: u8,
    function: u8,
    vendor_id: u16,
    device_id: u16,
    class: u8,
    subclass: u8,
    prog_if: u8,
    header_type: u8,
    buses: (u8, u8, u8),
    bars: &[u32; 6],
) -> (r: Vec<u8>)
    requires
        class == PCI_CLASS_BRIDGE && subclass == PCI_SUBCLASS_PCI_PCI ==> buses.0 < 80 && buses.1 < 80 && buses.2 < 80,
    ensures
        r@ == pci_device_text(
            bus,
            device,
            function,
            vendor_id,
            device_id,
            class,
            subclass,
            prog_if,
            header_type,
            buses,
            bars@,
        ),
{
    let mut out: Vec<u8> = Vec::new();
    push_address(&mut out, bus, device, function);
    push_ids(&mut out, vendor_id, device_id, class, subclass, prog_if, header_type);
    push_tags(&mut out, class, subclass, vendor_id, buses);
    out.push(10);
    if is_usb_controller(class, subclass) {
        let lines = usb_bar_lines(bars);
        push_bytes(&mut out, lines.as_slice());
    }
    out
}

} // verus!
