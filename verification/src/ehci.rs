//! EHCI (USB 2.0) host controller: register layout and the decisions of
//! its bring-up and port reset, over register values read by the caller.

use vstd::prelude::*;
use crate::usb::{EhciInfo, UsbError};

verus! {

/// Capability register length (CAPLENGTH) offset.
pub const REG_CAPLENGTH: u8 = 0x00;

/// Operational registers.
pub const REG_USBCMD: usize = 0x000;
pub const REG_USBSTS: usize = 0x004;
pub const REG_USBINTR: usize = 0x008;
pub const REG_FRINDEX: usize = 0x00C;
pub const REG_CTRLDSSEGMENT: usize = 0x010;
pub const REG_PERIODICLISTBASE: usize = 0x014;
pub const REG_ASYNCLISTADDR: usize = 0x018;
pub const REG_CONFIGFLAG: usize = 0x040;

/// Port register set base.
pub const REG_PORTSC_BASE: usize = 0x064;

/// USB command register bits.
pub const USBCMD_RUN: u32 = 0x0000_0001;
pub const USBCMD_HCRST: u32 = 0x0000_0002;
/// Frame list size field (default 1024 entries).
pub const USBCMD_FLS: u32 = 0x0000_0000;

/// USB status register bits.
pub const USBSTS_HCH: u32 = 0x0000_1000;
pub const USBSTS_HSE: u32 = 0x0000_0010;
pub const USBSTS_INT: u32 = 0x0000_0004;

/// Port status register bits.
pub const PORTSC_CCS: u32 = 0x0000_0001;
pub const PORTSC_CSC: u32 = 0x0000_0002;
pub const PORTSC_PED: u32 = 0x0000_0004;
pub const PORTSC_PEC: u32 = 0x0000_0008;
pub const PORTSC_PR: u32 = 0x0000_0010;
pub const PORTSC_SUSP: u32 = 0x0000_0080;
pub const PORTSC_OWNER: u32 = 0x0000_0200;

/// An EHCI controller: its MMIO base and the length of its capability
/// registers, after which the operational registers start.
pub struct EhciController {
    pub mmio_base: u64,
    pub cap_length: u8,
}

impl EhciController {
    /// Builds the controller from CAPLENGTH and HCIVERSION: 0xFF
    /// (unmapped MMIO) or a version below 1.0 fail with `EhciInitFailed`.
    pub fn new(info: EhciInfo, cap_length: u8, hciversion: u16) -> (r: Result<Self, UsbError>)
        ensures
            (cap_length == 0xFF || hciversion < 0x0100) ==> r == Err::<Self, UsbError>(UsbError::EhciInitFailed),
            !(cap_length == 0xFF || hciversion < 0x0100) ==> match r {
                Ok(c) => c.mmio_base == info.mmio_base && c.cap_length == cap_length,
                Err(_) => false,
            },
    {
        if cap_length == 0xFF {
            return Err(UsbError::EhciInitFailed);
        }
        if hciversion < 0x0100 {
            return Err(UsbError::EhciInitFailed);
        }
        Ok(EhciController { mmio_base: info.mmio_base, cap_length })
    }

    /// Get MMIO base address.
    pub fn mmio_base(&self) -> (r: u64)
        ensures
            r == self.mmio_base,
    {
        self.mmio_base
    }

    /// Offset from the MMIO base of an operational register.
    pub fn op_reg_offset(&self, offset: usize) -> (r: usize)
        requires
            offset < 0x1_0000,
        ensures
            r == self.cap_length + offset,
    {
        self.cap_length as usize + offset
    }

    /// Offset from the MMIO base of a port's status register.
    pub fn port_sc_offset(&self, port: usize) -> (r: usize)
        requires
            port < 256,
        ensures
            r == self.cap_length + REG_PORTSC_BASE + port * 4,
    {
        self.op_reg_offset(REG_PORTSC_BASE + port * 4)
    }

    /// Whether the controller runs (HCHalted clear in USBSTS).
    pub fn is_running(&self, usbsts: u32) -> (r: bool)
        ensures
            r == (usbsts & USBSTS_HCH == 0),
    {
        usbsts & USBSTS_HCH == 0
    }

    /// Whether a port has a device attached and enabled.
    pub fn check_port_connection(&self, portsc: u32) -> (r: bool)
        ensures
            r == (portsc & PORTSC_CCS != 0 && portsc & PORTSC_PED != 0),
    {
        (portsc & PORTSC_CCS) != 0 && (portsc & PORTSC_PED) != 0
    }

    /// The port status value that starts a port reset.
    pub fn port_reset_value(&self, portsc: u32) -> (r: u32)
        ensures
            r == portsc | PORTSC_PR,
    {
        portsc | PORTSC_PR
    }

    /// Outcome of a port reset: the reset bit did not clear in time
    /// (`EhciInitFailed`), the port is not enabled afterwards
    /// (`DeviceNotFound`), or success.
    pub fn reset_port(&self, pr_cleared: bool, portsc_after: u32) -> (r: Result<(), UsbError>)
        ensures
            !pr_cleared ==> r == Err::<(), UsbError>(UsbError::EhciInitFailed),
            pr_cleared && portsc_after & PORTSC_PED == 0 ==> r == Err::<(), UsbError>(
                UsbError::DeviceNotFound,
            ),
            pr_cleared && portsc_after & PORTSC_PED != 0 ==> r == Ok::<(), UsbError>(()),
    {
        if !pr_cleared {
            return Err(UsbError::EhciInitFailed);
        }
        if portsc_after & PORTSC_PED == 0 {
            return Err(UsbError::DeviceNotFound);
        }
        Ok(())
    }
}

/// Whether a controller reset must be issued: only a running controller
/// (HCHalted clear) is reset.
pub fn reset_needed(usbsts: u32) -> (r: bool)
    ensures
        r == (usbsts & USBSTS_HCH == 0),
{
    usbsts & USBSTS_HCH == 0
}

/// Whether a controller reset completed: HCRST reads back clear.
pub fn reset_done(usbcmd: u32) -> (r: bool)
    ensures
        r == (usbcmd & USBCMD_HCRST == 0),
{
    usbcmd & USBCMD_HCRST == 0
}

/// Outcome of the controller reset: nothing to do on a halted controller;
/// otherwise the reset must have completed within the wait.
pub fn reset_outcome(reset_issued: bool, completed: bool) -> (r: Result<(), UsbError>)
    ensures
        r == (if reset_issued && !completed { Err::<(), UsbError>(UsbError::EhciInitFailed) } else { Ok::<
            (),
            UsbError,
        >(()) }),
{
    if reset_issued && !completed {
        Err(UsbError::EhciInitFailed)
    } else {
        Ok(())
    }
}

/// The operational register writes that start the controller, in order:
/// CONFIGFLAG takes the ports, then USBCMD runs the schedule.
pub fn start_writes() -> (r: [(usize, u32); 2])
    ensures
        r@ == seq![(REG_CONFIGFLAG, 1u32), (REG_USBCMD, USBCMD_RUN | USBCMD_FLS)],
{
    let r = [(REG_CONFIGFLAG, 1u32), (REG_USBCMD, USBCMD_RUN | USBCMD_FLS)];
    assert(r@ =~= seq![(REG_CONFIGFLAG, 1u32), (REG_USBCMD, USBCMD_RUN | USBCMD_FLS)]);
    r
}

/// Outcome of waiting for the controller to run: the wait must not have
/// run out.
pub fn start_outcome(timed_out: bool) -> (r: Result<(), UsbError>)
    ensures
        r == (if timed_out { Err::<(), UsbError>(UsbError::EhciInitFailed) } else { Ok::<(), UsbError>(()) }),
{
    if timed_out {
        Err(UsbError::EhciInitFailed)
    } else {
        Ok(())
    }
}

} // verus!
