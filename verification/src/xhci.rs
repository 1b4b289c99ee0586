//! xHCI host controller: register layout, the transfer ring, and the
//! decisions of controller bring-up, port reset, command completion and
//! control transfers. Register reads and writes themselves are done by
//! the caller at the offsets and with the values computed here.

use vstd::prelude::*;
use crate::dma::{ring_push, ring_push_seq, ring_wf, zeroed_trbs, ring_put};
use crate::trb::{EventTrb, NormalTrb, TRB_RING_SIZE, code_field, type_field};
use crate::usb::{UsbError, XhciInfo};
use crate::device::{UsbSetupPacket, setup_image, setup_packet_param};

verus! {

/// Maximum number of USB devices.
pub const MAX_DEVICES: usize = 8;

/// Capability register offsets.
pub const REG_CAPLENGTH: u8 = 0x00;

/// Operational register offsets.
pub const REG_USBCMD: usize = 0x000;
pub const REG_USBSTS: usize = 0x004;
pub const REG_PAGESIZE: usize = 0x008;
pub const REG_DNCTRL: usize = 0x014;
pub const REG_CRCR: usize = 0x018;
pub const REG_DCBAAP: usize = 0x030;
pub const REG_CONFIG: usize = 0x038;

/// Interrupter 0 runtime register offsets.
pub const REG_IMAN: usize = 0x000;
pub const REG_IMOD: usize = 0x004;
pub const REG_ERSTSZ_0: usize = 0x008;
pub const REG_ERSTBA_LO_0: usize = 0x010;
pub const REG_ERSTBA_HI_0: usize = 0x014;
pub const REG_ERDP_LO_0: usize = 0x020;
pub const REG_ERDP_HI_0: usize = 0x024;

/// Interrupter management bits.
pub const IMAN_IP: u32 = 0x0000_0001;
pub const IMAN_IE: u32 = 0x0000_0002;

/// Port register set base.
pub const REG_PORTSC_BASE: usize = 0x400;

/// USB command register bits.
pub const USBCMD_RUN: u32 = 0x0000_0001;
pub const USBCMD_HCRST: u32 = 0x0000_0002;

/// USB status register bits.
pub const USBSTS_HCH: u32 = 0x0000_1000;
pub const USBSTS_CNR: u32 = 0x0000_0800;
pub const USBSTS_EINT: u32 = 0x0000_0004;
pub const USBSTS_PCD: u32 = 0x0000_0002;
pub const USBSTS_HSE: u32 = 0x0000_0010;

/// Port status and control register bits.
pub const PORTSC_CCS: u32 = 0x0000_0001;
pub const PORTSC_CSC_FLAG: u32 = 0x0000_0002;
pub const PORTSC_PED: u32 = 0x0000_0004;
pub const PORTSC_PEDC: u32 = 0x0000_0008;
pub const PORTSC_OCA: u32 = 0x0000_0010;
pub const PORTSC_PR: u32 = 0x0000_0020;
pub const PORTSC_PLS_MASK: u32 = 0x0000_03E0;
pub const PORTSC_PP: u32 = 0x0000_0200;
pub const PORTSC_PORT_SPEED_MASK: u32 = 0x0000_F000;
pub const PORTSC_PORT_SPEED_SHIFT: u32 = 12;

/// A transfer ring: 16 TRB slots, enqueue and dequeue indices and the
/// producer cycle state.
pub struct TransferRing {
    pub trbs: Vec<NormalTrb>,
    pub enqueue: u32,
    pub dequeue: u32,
    pub cycle_state: u32,
}

impl TransferRing {
    /// An empty ring with producer cycle 1.
    pub fn new() -> (r: Self)
        ensures
            r.wf(),
            r.enqueue == 0,
            r.dequeue == 0,
            r.cycle_state == 1,
    {
        TransferRing { trbs: zeroed_trbs(), enqueue: 0, dequeue: 0, cycle_state: 1 }
    }

    /// Well-formedness of the ring.
    pub open spec fn wf(&self) -> bool {
        ring_wf(self.trbs.len() as nat, self.enqueue, self.dequeue, self.cycle_state)
    }

    /// Enqueues a TRB (see `ring_push`); `Err(Timeout)` and no change when
    /// the ring is full.
    pub fn enqueue(&mut self, trb: &NormalTrb) -> (r: Result<(), UsbError>)
        requires
            old(self).wf(),
        ensures
            final(self).wf(),
            final(self).dequeue == old(self).dequeue,
            match ring_push(old(self).trbs@, old(self).enqueue, old(self).dequeue, old(self).cycle_state, *trb) {
                None => r == Err::<(), UsbError>(UsbError::Timeout) && final(self).trbs@ == old(self).trbs@
                    && final(self).enqueue == old(self).enqueue && final(self).cycle_state
                    == old(self).cycle_state,
                Some(s) => r is Ok && final(self).trbs@ == s.0 && final(self).enqueue == s.1
                    && final(self).cycle_state == s.2,
            },
    {
        let res = ring_put(&mut self.trbs, self.enqueue, self.dequeue, self.cycle_state, trb);
        match res {
            Ok((next, cycle)) => {
                self.enqueue = next;
                self.cycle_state = cycle;
                Ok(())
            },
            Err(e) => Err(e),
        }
    }

    /// The address where the next TRB will be written, for a ring whose
    /// slot 0 lies at `ring_base` (each TRB takes 16 bytes).
    pub fn enqueue_ptr(&self, ring_base: u64) -> (r: u64)
        requires
            self.wf(),
            ring_base + 16 * TRB_RING_SIZE <= u64::MAX,
        ensures
            r == ring_base + 16 * self.enqueue,
    {
        ring_base + 16 * (self.enqueue as u64)
    }

    /// Enqueues TRBs in order, stopping at the first that does not fit.
    pub fn enqueue_all(&mut self, items: &Vec<NormalTrb>) -> (r: Result<(), UsbError>)
        requires
            old(self).wf(),
        ensures
            final(self).wf(),
            final(self).dequeue == old(self).dequeue,
            ({
                let s = ring_push_seq(
                    old(self).trbs@,
                    old(self).enqueue,
                    old(self).dequeue,
                    old(self).cycle_state,
                    items@,
                );
                &&& final(self).trbs@ == s.0
                &&& final(self).enqueue == s.1
                &&& final(self).cycle_state == s.2
                &&& r == (if s.3 {
                    Ok::<(), UsbError>(())
                } else {
                    Err::<(), UsbError>(UsbError::Timeout)
                })
            }),
    {
        let mut i: usize = 0;
        assert(items@.subrange(0, items.len() as int) =~= items@);
        while i < items.len()
            invariant
                self.wf(),
                self.dequeue == old(self).dequeue,
                i <= items.len(),
                ring_push_seq(old(self).trbs@, old(self).enqueue, old(self).dequeue, old(self).cycle_state, items@)
                    == ring_push_seq(self.trbs@, self.enqueue, self.dequeue, self.cycle_state, items@.subrange(i as int, items.len() as int)),
            decreases items.len() - i,
        {
            let ghost rest = items@.subrange(i as int, items.len() as int);
            assert(rest.drop_first() =~= items@.subrange(i + 1, items.len() as int));
            let trb = items[i];
            match self.enqueue(&trb) {
                Ok(()) => {},
                Err(e) => {
                    return Err(e);
                },
            }
            i = i + 1;
        }
        assert(items@.subrange(i as int, items.len() as int) =~= Seq::<NormalTrb>::empty());
        Ok(())
    }
}

/// Doorbell-relevant state of an xHCI controller: its MMIO base and the
/// register block offsets read from the capability registers, and its
/// transfer ring.
pub struct XhciController {
    pub mmio_base: u64,
    pub cap_length: u8,
    pub runtime_offset: u64,
    pub doorbell_offset: u64,
    pub transfer_ring: TransferRing,
}

impl XhciController {
    /// Builds the controller state from the capability registers:
    /// CAPLENGTH 0xFF (unmapped MMIO) or HCIVERSION below 1.0 fail with
    /// `XhciInitFailed`; the runtime and doorbell offsets are RTSOFF and
    /// DBOFF with bit 0 cleared.
    pub fn new(info: XhciInfo, cap_length: u8, hciversion: u16, rtsoff: u32, dboff: u32) -> (r: Result<
        Self,
        UsbError,
    >)
        ensures
            (cap_length == 0xFF || hciversion < 0x0100) ==> r == Err::<Self, UsbError>(
                UsbError::XhciInitFailed,
            ),
            !(cap_length == 0xFF || hciversion < 0x0100) ==> match r {
                Ok(c) => c.mmio_base == info.mmio_base && c.cap_length == cap_length
                    && c.runtime_offset == rtsoff - rtsoff % 2 && c.doorbell_offset == dboff
                    - dboff % 2 && c.transfer_ring.wf()
                    && c.transfer_ring.enqueue == 0 && c.transfer_ring.dequeue == 0
                    && c.transfer_ring.cycle_state == 1,
                Err(_) => false,
            },
    {
        if cap_length == 0xFF {
            return Err(UsbError::XhciInitFailed);
        }
        if hciversion < 0x0100 {
            return Err(UsbError::XhciInitFailed);
        }
        let rts = rtsoff & 0xFFFF_FFFE;
        let db = dboff & 0xFFFF_FFFE;
        proof {
            crate::bits::lemma_u32_fields();
        }
        assert(rtsoff & 0xFFFF_FFFE == rtsoff - rtsoff % 2);
        assert(dboff & 0xFFFF_FFFE == dboff - dboff % 2);
        Ok(XhciController {
            mmio_base: info.mmio_base,
            cap_length,
            runtime_offset: rts as u64,
            doorbell_offset: db as u64,
            transfer_ring: TransferRing::new(),
        })
    }

    /// Get MMIO base address.
    pub fn mmio_base(&self) -> (r: u64)
        ensures
            r == self.mmio_base,
    {
        self.mmio_base
    }

    /// Offset from the MMIO base of an operational register.
    pub fn op_reg_offset(&self, offset: usize) -> (r: u64)
        requires
            offset < 0x1_0000,
        ensures
            r == self.cap_length + offset,
    {
        self.cap_length as u64 + offset as u64
    }

    /// Offset from the MMIO base of an interrupter 0 runtime register.
    pub fn runtime_reg_offset(&self, offset: usize) -> (r: u64)
        requires
            offset < 0x1_0000,
            self.runtime_offset <= u32::MAX,
        ensures
            r == self.runtime_offset + offset,
    {
        self.runtime_offset + offset as u64
    }

    /// Doorbell write for an endpoint: the offset from the MMIO base of
    /// the slot's doorbell and the value (stream in bits 16-31, endpoint
    /// in bits 0-7).
    pub fn doorbell(&self, slot: u8, endpoint: u8, stream: u16) -> (r: (u64, u32))
        requires
            self.doorbell_offset <= u32::MAX,
        ensures
            r.0 == self.doorbell_offset + slot * 4,
            r.1 == stream * 0x1_0000 + endpoint,
    {
        let offset = self.doorbell_offset + (slot as u64) * 4;
        let s = stream as u32;
        let e = endpoint as u32;
        let value: u32 = (s << 16) | (e & 0xFF);
        assert((s << 16) | (e & 0xFF) == s * 0x1_0000 + e) by (bit_vector)
            requires
                s < 0x1_0000,
                e < 0x100,
        ;
        (offset, value)
    }
}

/// Offset in the operational registers of a port's status register.
pub fn port_sc_offset(port: usize) -> (r: usize)
    requires
        port < 256,
    ensures
        r == REG_PORTSC_BASE + port * 0x10,
{
    REG_PORTSC_BASE + port * 0x10
}

/// Bit test helper: whether any bit of `mask` is set in `v`.
pub open spec fn has_bits(v: u32, mask: u32) -> bool {
    v & mask != 0
}

/// Whether the controller runs (HCHalted clear).
pub fn is_running(usbsts: u32) -> (r: bool)
    ensures
        r == !has_bits(usbsts, USBSTS_HCH),
{
    usbsts & USBSTS_HCH == 0
}

/// Whether a reset must be issued: only a running controller is reset.
pub fn reset_needed(usbsts: u32) -> (r: bool)
    ensures
        r == !has_bits(usbsts, USBSTS_HCH),
{
    usbsts & USBSTS_HCH == 0
}

/// Whether a controller reset completed: HCRST cleared and the controller
/// ready.
pub fn reset_complete(usbcmd: u32, usbsts: u32) -> (r: bool)
    ensures
        r == (!has_bits(usbcmd, USBCMD_HCRST) && !has_bits(usbsts, USBSTS_CNR)),
{
    usbcmd & USBCMD_HCRST == 0 && usbsts & USBSTS_CNR == 0
}

/// Whether a port has a device attached and enabled.
pub fn check_port_connection(portsc: u32) -> (r: bool)
    ensures
        r == (has_bits(portsc, PORTSC_CCS) && has_bits(portsc, PORTSC_PED)),
{
    (portsc & PORTSC_CCS) != 0 && (portsc & PORTSC_PED) != 0
}

/// The port status value that starts a port reset.
pub fn port_reset_value(portsc: u32) -> (r: u32)
    ensures
        r == portsc | PORTSC_PR,
{
    portsc | PORTSC_PR
}

/// Outcome of a port reset: the reset bit did not clear in time
/// (`XhciInitFailed`), the port is not enabled afterwards
/// (`DeviceNotFound`), or success.
pub fn port_reset_outcome(pr_cleared: bool, portsc_after: u32) -> (r: Result<(), UsbError>)
    ensures
        !pr_cleared ==> r == Err::<(), UsbError>(UsbError::XhciInitFailed),
        pr_cleared && !has_bits(portsc_after, PORTSC_PED) ==> r == Err::<(), UsbError>(
            UsbError::DeviceNotFound,
        ),
        pr_cleared && has_bits(portsc_after, PORTSC_PED) ==> r == Ok::<(), UsbError>(()),
{
    if !pr_cleared {
        return Err(UsbError::XhciInitFailed);
    }
    if portsc_after & PORTSC_PED == 0 {
        return Err(UsbError::DeviceNotFound);
    }
    Ok(())
}

/// Low and high 32-bit halves of a 64-bit value.
pub fn split_u64(v: u64) -> (r: (u32, u32))
    ensures
        r.0 == v % 0x1_0000_0000,
        r.1 == v / 0x1_0000_0000,
        r.1 * 0x1_0000_0000 + r.0 == v,
{
    let lo = (v & 0xFFFF_FFFF) as u32;
    let hi = ((v >> 32) & 0xFFFF_FFFF) as u32;
    proof {
        crate::bits::lemma_u64_fields();
    }
    assert((v & 0xFFFF_FFFF) == v % 0x1_0000_0000);
    assert(((v >> 32) & 0xFFFF_FFFF) == v / 0x1_0000_0000);
    (lo, hi)
}

/// Register values programmed into a controller at bring-up.
#[derive(PartialEq, Eq, Debug, Clone, Copy)]
pub struct OperationalSetup {
    pub dcbaap: (u32, u32),
    pub erstba: (u32, u32),
    pub erdp: (u32, u32),
    pub crcr: (u32, u32),
}

/// Plans the operational register programming: every DMA structure must
/// be 64-byte aligned (else `XhciInitFailed`); DCBAAP, ERSTBA and ERDP
/// get the array, table and event ring bases, CRCR the command ring base
/// with the ring cycle state in bit 0; each as low and high halves.
pub fn operational_setup(cmd_base: u64, evt_base: u64, erst_base: u64, dcbaa_base: u64, cmd_cycle: u64) -> (r:
    Result<OperationalSetup, UsbError>)
    requires
        cmd_cycle < 2,
    ensures
        !(cmd_base % 64 == 0 && evt_base % 64 == 0 && erst_base % 64 == 0 && dcbaa_base % 64 == 0) ==> r
            == Err::<OperationalSetup, UsbError>(UsbError::XhciInitFailed),
        (cmd_base % 64 == 0 && evt_base % 64 == 0 && erst_base % 64 == 0 && dcbaa_base % 64 == 0) ==> match r {
            Ok(s) => {
                &&& s.dcbaap.1 * 0x1_0000_0000 + s.dcbaap.0 == dcbaa_base
                &&& s.erstba.1 * 0x1_0000_0000 + s.erstba.0 == erst_base
                &&& s.erdp.1 * 0x1_0000_0000 + s.erdp.0 == evt_base
                &&& s.crcr.1 * 0x1_0000_0000 + s.crcr.0 == cmd_base + cmd_cycle
            },
            Err(_) => false,
        },
{
    proof {
        crate::bits::lemma_u64_fields();
    }
    if cmd_base & 0x3F != 0 || evt_base & 0x3F != 0 || erst_base & 0x3F != 0 || dcbaa_base & 0x3F != 0 {
        return Err(UsbError::XhciInitFailed);
    }
    let crcr = cmd_base | cmd_cycle;
    assert(cmd_base % 64 == 0 && cmd_cycle < 2 ==> cmd_base | cmd_cycle == cmd_base + cmd_cycle)
        by (bit_vector);
    Ok(OperationalSetup {
        dcbaap: split_u64(dcbaa_base),
        erstba: split_u64(erst_base),
        erdp: split_u64(evt_base),
        crcr: split_u64(crcr),
    })
}

/// The interrupter management value that enables interrupter 0.
pub fn iman_enable_value(iman: u32) -> (r: u32)
    ensures
        r == iman | IMAN_IE,
{
    iman | IMAN_IE
}

/// Whether an event interrupt is pending and must be acknowledged by
/// writing `IMAN_IP` back.
pub fn iman_pending(iman: u32) -> (r: bool)
    ensures
        r == has_bits(iman, IMAN_IP),
{
    iman & IMAN_IP != 0
}

/// Control word of a TRB of the given type with the given extra bits.
pub open spec fn control_word(trb_type: int, bits: int) -> int {
    trb_type * 1024 + bits
}

/// The Enable Slot command TRB (type 9, interrupt on completion).
pub fn enable_slot_trb() -> (r: NormalTrb)
    ensures
        r == (NormalTrb { data_ptr: 0, status: 0, control: control_word(9, 0x20) as u32 }),
{
    NormalTrb { data_ptr: 0, status: 0, control: 0x2420 }
}

/// What one event means while waiting for Enable Slot to complete.
#[derive(PartialEq, Eq, Structural, Debug, Clone, Copy)]
pub enum SlotEventOutcome {
    /// Not a command completion event: keep waiting.
    Ignore,
    /// The command completed successfully with this slot ID.
    Slot(u8),
    /// The command completed with an error code.
    Failed,
}

/// Interprets an event while waiting for Enable Slot: a command
/// completion (type 33) with code 1 yields the slot ID in bits 24-31, with
/// any other code a failure; other events are ignored.
pub fn enable_slot_event(event: &EventTrb) -> (r: SlotEventOutcome)
    ensures
        type_field(event.control) != 33 ==> r == SlotEventOutcome::Ignore,
        type_field(event.control) == 33 && code_field(event.status) == 1 ==> r == SlotEventOutcome::Slot(
            (event.control as int / 0x100_0000) as u8,
        ),
        type_field(event.control) == 33 && code_field(event.status) != 1 ==> r
            == SlotEventOutcome::Failed,
{
    let control = event.control;
    let status = event.status;
    let event_type = ((control >> 10) & 0x3F) as u8;
    proof {
        crate::bits::lemma_u32_fields();
    }
    assert(((control >> 10) & 0x3F) == (control / 1024) % 64);
    let code = (status >> 24) as u8;
    assert((status >> 24) == status / 0x100_0000);
    if event_type == 33 {
        if code == 1 {
            let slot_id = ((control >> 24) & 0xFF) as u8;
            assert(((control >> 24) & 0xFF) == control / 0x100_0000);
            SlotEventOutcome::Slot(slot_id)
        } else {
            SlotEventOutcome::Failed
        }
    } else {
        SlotEventOutcome::Ignore
    }
}

/// The three TRBs of a control-IN transfer: setup stage (type 2, IN,
/// IOC, immediate data), data stage (type 1, IN, IOC) and status stage
/// (type 4, IOC).
pub fn control_get_trbs(setup: &UsbSetupPacket, data_ptr: u64, data_length: u16) -> (r: Vec<NormalTrb>)
    ensures
        r@ == seq![
            NormalTrb { data_ptr: setup_image(*setup) as u64, status: data_length as u32, control: control_word(2, 0x10060) as u32 },
            NormalTrb { data_ptr: data_ptr, status: data_length as u32, control: control_word(1, 0x10020) as u32 },
            NormalTrb { data_ptr: 0, status: 0, control: control_word(4, 0x20) as u32 },
        ],
{
    let len = data_length as u32;
    let status = len & 0x00FF_FFFF;
    proof {
        crate::bits::lemma_u32_fields();
    }
    assert(len & 0x00FF_FFFF == len);
    let mut v: Vec<NormalTrb> = Vec::new();
    v.push(NormalTrb { data_ptr: setup_packet_param(setup), status, control: 0x10860 });
    v.push(NormalTrb { data_ptr, status, control: 0x10420 });
    v.push(NormalTrb { data_ptr: 0, status: 0, control: 0x1020 });
    v
}

/// The two TRBs of a control-OUT transfer without data: setup stage
/// (type 2, OUT, IOC, immediate data) and status stage (type 4, IN, IOC).
pub fn control_set_trbs(setup: &UsbSetupPacket) -> (r: Vec<NormalTrb>)
    ensures
        r@ == seq![
            NormalTrb { data_ptr: setup_image(*setup) as u64, status: setup.w_length as u32, control: control_word(2, 0x60) as u32 },
            NormalTrb { data_ptr: 0, status: 0, control: control_word(4, 0x10020) as u32 },
        ],
{
    let len = setup.w_length as u32;
    let status = len & 0x00FF_FFFF;
    proof {
        crate::bits::lemma_u32_fields();
    }
    assert(len & 0x00FF_FFFF == len);
    let mut v: Vec<NormalTrb> = Vec::new();
    v.push(NormalTrb { data_ptr: setup_packet_param(setup), status, control: 0x860 });
    v.push(NormalTrb { data_ptr: 0, status: 0, control: 0x11020 });
    v
}

impl XhciController {
    /// Queues a control-IN transfer on the transfer ring; fails with
    /// `Timeout` at the first TRB that does not fit.
    pub fn queue_control_get(&mut self, setup: &UsbSetupPacket, data_ptr: u64, data_length: u16) -> (r:
        Result<(), UsbError>)
        requires
            old(self).transfer_ring.wf(),
        ensures
            final(self).transfer_ring.wf(),
            final(self).mmio_base == old(self).mmio_base,
            final(self).doorbell_offset == old(self).doorbell_offset,
            ({
                let items = seq![
                    NormalTrb { data_ptr: setup_image(*setup) as u64, status: data_length as u32, control: control_word(2, 0x10060) as u32 },
                    NormalTrb { data_ptr: data_ptr, status: data_length as u32, control: control_word(1, 0x10020) as u32 },
                    NormalTrb { data_ptr: 0, status: 0, control: control_word(4, 0x20) as u32 },
                ];
                let t = old(self).transfer_ring;
                let s = ring_push_seq(t.trbs@, t.enqueue, t.dequeue, t.cycle_state, items);
                &&& final(self).transfer_ring.trbs@ == s.0
                &&& final(self).transfer_ring.enqueue == s.1
                &&& final(self).transfer_ring.cycle_state == s.2
                &&& r == (if s.3 { Ok::<(), UsbError>(()) } else { Err::<(), UsbError>(UsbError::Timeout) })
            }),
    {
        let trbs = control_get_trbs(setup, data_ptr, data_length);
        self.transfer_ring.enqueue_all(&trbs)
    }

    /// Queues a control-OUT transfer without data on the transfer ring.
    pub fn queue_control_set(&mut self, setup: &UsbSetupPacket) -> (r: Result<(), UsbError>)
        requires
            old(self).transfer_ring.wf(),
        ensures
            final(self).transfer_ring.wf(),
            final(self).mmio_base == old(self).mmio_base,
            final(self).doorbell_offset == old(self).doorbell_offset,
            ({
                let items = seq![
                    NormalTrb { data_ptr: setup_image(*setup) as u64, status: setup.w_length as u32, control: control_word(2, 0x60) as u32 },
                    NormalTrb { data_ptr: 0, status: 0, control: control_word(4, 0x10020) as u32 },
                ];
                let t = old(self).transfer_ring;
                let s = ring_push_seq(t.trbs@, t.enqueue, t.dequeue, t.cycle_state, items);
                &&& final(self).transfer_ring.trbs@ == s.0
                &&& final(self).transfer_ring.enqueue == s.1
                &&& final(self).transfer_ring.cycle_state == s.2
                &&& r == (if s.3 { Ok::<(), UsbError>(()) } else { Err::<(), UsbError>(UsbError::Timeout) })
            }),
    {
        let trbs = control_set_trbs(setup);
        self.transfer_ring.enqueue_all(&trbs)
    }
}

/// Result of waiting for a control transfer's events: only running out of
/// polls fails (`Timeout`); error completion codes are reported but do not
/// fail the transfer.
pub fn control_wait_result(timeout_left: u32) -> (r: Result<(), UsbError>)
    ensures
        r == (if timeout_left == 0 { Err::<(), UsbError>(UsbError::Timeout) } else { Ok::<(), UsbError>(()) }),
{
    if timeout_left == 0 {
        Err(UsbError::Timeout)
    } else {
        Ok(())
    }
}

} // verus!
