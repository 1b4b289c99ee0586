//! Local APIC and I/O APIC set-up: the MSR checks, the register writes,
//! the legacy PIC masking, the IRQ redirection entry, and the messages
//! the set-up prints on the debug port.

use vstd::prelude::*;
use crate::fmt::dec_spec;

verus! {

/// Local APIC register block (offsets in the comments).
#[derive(PartialEq, Eq, Debug, Clone, Copy)]
pub struct LocalApicRegisters {
    /// 0x08: local APIC ID.
    pub id: u32,
    /// 0x1C: version.
    pub version: u32,
    /// 0x30: task priority.
    pub tpr: u32,
    /// 0x50: logical destination.
    pub ldr: u32,
    /// 0x60: destination format.
    pub dfr: u32,
    /// 0x70: spurious interrupt vector.
    pub svr: u32,
    /// 0xB0: end of interrupt.
    pub eoi: u32,
    /// 0xE4: error status.
    pub error_status: u32,
    /// 0x100 and 0x104: interrupt command.
    pub icr_low: u32,
    pub icr_high: u32,
    /// 0x110: timer local vector table entry.
    pub timer_lvt: u32,
    /// 0x170: timer initial count.
    pub timer_initial: u32,
    /// 0x180: timer current count.
    pub timer_current: u32,
    /// 0x190: timer divide configuration.
    pub timer_divide: u32,
}

/// Default local APIC base.
pub const LOCAL_APIC_DEFAULT_BASE: u64 = 0xFEE0_0000;

/// Default I/O APIC base.
pub const IOAPIC_DEFAULT_BASE: u64 = 0xFEC0_0000;

/// I/O APIC register select and window offsets.
pub const IOAPIC_IOREGSEL: u64 = 0x00;
pub const IOAPIC_IOWIN: u64 = 0x10;

/// Local APIC register offsets used at set-up.
pub const LAPIC_SVR_OFFSET: u64 = 0x70;
pub const LAPIC_TPR_OFFSET: u64 = 0x30;
pub const LAPIC_EOI_OFFSET: u64 = 0xB0;

/// Register addresses.
pub const LAPIC_SVR_ADDR: u64 = LOCAL_APIC_DEFAULT_BASE + LAPIC_SVR_OFFSET;
pub const LAPIC_TPR_ADDR: u64 = LOCAL_APIC_DEFAULT_BASE + LAPIC_TPR_OFFSET;
pub const LAPIC_EOI_ADDR: u64 = LOCAL_APIC_DEFAULT_BASE + LAPIC_EOI_OFFSET;
pub const IOAPIC_SEL_ADDR: u64 = IOAPIC_DEFAULT_BASE + IOAPIC_IOREGSEL;
pub const IOAPIC_WIN_ADDR: u64 = IOAPIC_DEFAULT_BASE + IOAPIC_IOWIN;

/// The APIC base MSR and its bits.
pub const IA32_APIC_BASE: u32 = 0x1B;
pub const X2APIC_ENABLE_BIT: u64 = 0x400;
pub const APIC_ENABLE_BIT: u64 = 0x800;

/// Port of the debug console.
pub const DEBUG_PORT: u16 = 0xE9;

/// '[PIC] Disabling 8259A PIC...\n'
pub const PIC_DISABLING: [u8; 29] = [91, 80, 73, 67, 93, 32, 68, 105, 115, 97, 98, 108, 105, 110, 103, 32, 56, 50, 53, 57, 65, 32, 80, 73, 67, 46, 46, 46, 10];

/// '[PIC] All IRQs masked\n'
pub const PIC_MASKED: [u8; 22] = [91, 80, 73, 67, 93, 32, 65, 108, 108, 32, 73, 82, 81, 115, 32, 109, 97, 115, 107, 101, 100, 10];

/// '[IOAPIC] ID='
pub const IOAPIC_ID: [u8; 12] = [91, 73, 79, 65, 80, 73, 67, 93, 32, 73, 68, 61];

/// ' VER='
pub const IOAPIC_VER: [u8; 5] = [32, 86, 69, 82, 61];

/// ' MAX_REDIR='
pub const IOAPIC_MAX_REDIR: [u8; 11] = [32, 77, 65, 88, 95, 82, 69, 68, 73, 82, 61];

/// '[IOAPIC] irq='
pub const IOAPIC_IRQ: [u8; 13] = [91, 73, 79, 65, 80, 73, 67, 93, 32, 105, 114, 113, 61];

/// ' vector='
pub const IOAPIC_VECTOR: [u8; 8] = [32, 118, 101, 99, 116, 111, 114, 61];

/// '[IOAPIC] readback: low=0x'
pub const IOAPIC_READBACK: [u8; 25] = [91, 73, 79, 65, 80, 73, 67, 93, 32, 114, 101, 97, 100, 98, 97, 99, 107, 58, 32, 108, 111, 119, 61, 48, 120];

/// ' high=0x'
pub const IOAPIC_HIGH: [u8; 8] = [32, 104, 105, 103, 104, 61, 48, 120];

/// '[IOAPIC] configured\n'
pub const IOAPIC_CONFIGURED: [u8; 20] = [91, 73, 79, 65, 80, 73, 67, 93, 32, 99, 111, 110, 102, 105, 103, 117, 114, 101, 100, 10];

/// The port writes that mask every legacy PIC interrupt, with the
/// messages around them on the debug port.
pub fn pic_disable() -> (r: Vec<(u16, u8)>)
    ensures
        r@ == PIC_DISABLING@.map_values(|b: u8| (DEBUG_PORT, b)) + seq![(0x21u16, 0xFFu8), (0xA1u16, 0xFFu8)]
            + PIC_MASKED@.map_values(|b: u8| (DEBUG_PORT, b)),
{
    let mut v: Vec<(u16, u8)> = Vec::new();
    debug_bytes(&mut v, &PIC_DISABLING);
    v.push((0x21, 0xFF));
    v.push((0xA1, 0xFF));
    let ghost mid = v@;
    debug_bytes(&mut v, &PIC_MASKED);
    assert(v@ =~= PIC_DISABLING@.map_values(|b: u8| (DEBUG_PORT, b)) + seq![(0x21u16, 0xFFu8), (0xA1u16, 0xFFu8)]
        + PIC_MASKED@.map_values(|b: u8| (DEBUG_PORT, b)));
    v
}

/// Appends the debug port writes of some bytes.
pub fn debug_bytes(out: &mut Vec<(u16, u8)>, b: &[u8])
    ensures
        final(out)@ == old(out)@ + b@.map_values(|x: u8| (DEBUG_PORT, x)),
{
    let mut i: usize = 0;
    while i < b.len()
        invariant
            0 <= i <= b@.len(),
            out@ == old(out)@ + b@.subrange(0, i as int).map_values(|x: u8| (DEBUG_PORT, x)),
        decreases b@.len() - i,
    {
        out.push((DEBUG_PORT, b[i]));
        i = i + 1;
        assert(out@ =~= old(out)@ + b@.subrange(0, i as int).map_values(|x: u8| (DEBUG_PORT, x)));
    }
    assert(b@.subrange(0, b@.len() as int) =~= b@);
}

/// The value to write back to the APIC base MSR when x2APIC mode is on:
/// x2APIC cleared, xAPIC enabled; none when x2APIC is off.
pub fn x2apic_fixup(msr: u64) -> (r: Option<u64>)
    ensures
        r == (if msr & X2APIC_ENABLE_BIT != 0 { Some((msr & !X2APIC_ENABLE_BIT) | APIC_ENABLE_BIT) } else { None }),
{
    if msr & X2APIC_ENABLE_BIT != 0 {
        Some((msr & !X2APIC_ENABLE_BIT) | APIC_ENABLE_BIT)
    } else {
        None
    }
}

/// Whether the APIC base MSR allows going on: x2APIC off and the APIC
/// enabled (the set-up halts otherwise).
pub fn apic_msr_usable(msr: u64) -> (r: bool)
    ensures
        r == (msr & X2APIC_ENABLE_BIT == 0 && msr & APIC_ENABLE_BIT != 0),
{
    msr & X2APIC_ENABLE_BIT == 0 && msr & APIC_ENABLE_BIT != 0
}

/// The MSR value of its two halves (EDX high, EAX low).
pub fn msr_value(eax: u32, edx: u32) -> (r: u64)
    ensures
        r == edx * 0x1_0000_0000 + eax,
{
    let hi = edx as u64;
    let lo = eax as u64;
    proof {
        crate::bits::lemma_join_halves(hi, lo);
    }
    (hi << 32u64) | lo
}

/// The local APIC writes (address, value) once the MSR is fine: software
/// enable with spurious vector 0xFF, then task priority 0.
pub fn apic_local_writes() -> (r: [(u64, u32); 2])
    ensures
        r@ == seq![(LAPIC_SVR_ADDR, 0x1FFu32), (LAPIC_TPR_ADDR, 0u32)],
{
    let r = [(LAPIC_SVR_ADDR, 0x1FFu32), (LAPIC_TPR_ADDR, 0u32)];
    assert(r@ =~= seq![(LAPIC_SVR_ADDR, 0x1FFu32), (LAPIC_TPR_ADDR, 0u32)]);
    r
}

/// The end-of-interrupt write (address, value); the IRQ does not matter
/// to the local APIC.
pub fn apic_send_eoi(irq: u32) -> (r: (u64, u32))
    ensures
        r == (LAPIC_EOI_ADDR, 0u32),
{
    (LAPIC_EOI_ADDR, 0)
}

/// The end-of-interrupt write.
pub fn apic_issue_eoi() -> (r: (u64, u32))
    ensures
        r == (LAPIC_EOI_ADDR, 0u32),
{
    apic_send_eoi(0)
}

/// Appends the decimal digits of a value.
fn push_dec(out: &mut Vec<u8>, v: u64)
    ensures
        final(out)@ == old(out)@ + dec_spec(v as nat),
{
    let d = crate::fmt::dec_digits(v);
    crate::shell::push_bytes(out, d.as_slice());
}

/// The probe line of an I/O APIC: its ID (bits 24-27 of the ID register),
/// its version (bits 0-7) and its redirection entries (bits 16-23, plus
/// one).
pub fn ioapic_probe_message(id: u32, ver: u32) -> (r: Vec<u8>)
    ensures
        r@ == IOAPIC_ID@ + dec_spec(((id / 0x100_0000) % 16) as nat) + IOAPIC_VER@ + dec_spec((ver % 0x100) as nat)
            + IOAPIC_MAX_REDIR@ + dec_spec(((ver / 0x1_0000) % 0x100 + 1) as nat) + seq![10u8],
{
    let mut out: Vec<u8> = Vec::new();
    crate::shell::push_bytes(&mut out, &IOAPIC_ID);
    let id_field = (id >> 24) & 0x0F;
    proof {
        crate::bits::lemma_u32_fields();
    }
    assert((id >> 24) & 0x0F == (id / 0x100_0000) % 16);
    push_dec(&mut out, id_field as u64);
    crate::shell::push_bytes(&mut out, &IOAPIC_VER);
    let ver_field = ver & 0xFF;
    assert(ver & 0xFF == ver % 0x100);
    push_dec(&mut out, ver_field as u64);
    crate::shell::push_bytes(&mut out, &IOAPIC_MAX_REDIR);
    let field = (ver >> 16) & 0xFF;
    assert(field == (ver / 0x1_0000) % 0x100);
    let redir = field + 1;
    push_dec(&mut out, redir as u64);
    out.push(10);
    out
}

/// The redirection register index of an IRQ: 0x12 plus two per IRQ
/// after the first.
pub fn irq_redirection_offset(irq: u8) -> (r: u32)
    requires
        irq >= 1,
    ensures
        r == 0x12 + (irq - 1) * 2,
{
    0x12 + ((irq as u32 - 1) * 2)
}

/// The I/O APIC writes (register select, then window) that route `irq`
/// to `vector` on CPU 0: fixed delivery, unmasked.
pub fn ioapic_route_writes(irq: u8, vector: u8) -> (r: [(u64, u32); 4])
    requires
        irq >= 1,
    ensures
        r@ == seq![
            (IOAPIC_SEL_ADDR, (0x12 + (irq - 1) * 2) as u32),
            (IOAPIC_WIN_ADDR, vector as u32),
            (IOAPIC_SEL_ADDR, (0x12 + (irq - 1) * 2 + 1) as u32),
            (IOAPIC_WIN_ADDR, 0u32),
        ],
{
    let off = irq_redirection_offset(irq);
    let r = [
        (IOAPIC_SEL_ADDR, off),
        (IOAPIC_WIN_ADDR, vector as u32),
        (IOAPIC_SEL_ADDR, off + 1),
        (IOAPIC_WIN_ADDR, 0u32),
    ];
    assert(r@ =~= seq![
            (IOAPIC_SEL_ADDR, (0x12 + (irq - 1) * 2) as u32),
            (IOAPIC_WIN_ADDR, vector as u32),
            (IOAPIC_SEL_ADDR, (0x12 + (irq - 1) * 2 + 1) as u32),
            (IOAPIC_WIN_ADDR, 0u32),
        ]);
    r
}

/// The line announcing a route: the IRQ and the vector in decimal.
pub fn ioapic_route_message(irq: u8, vector: u8) -> (r: Vec<u8>)
    ensures
        r@ == IOAPIC_IRQ@ + dec_spec(irq as nat) + IOAPIC_VECTOR@ + dec_spec(vector as nat) + seq![10u8],
{
    let mut out: Vec<u8> = Vec::new();
    crate::shell::push_bytes(&mut out, &IOAPIC_IRQ);
    push_dec(&mut out, irq as u64);
    crate::shell::push_bytes(&mut out, &IOAPIC_VECTOR);
    push_dec(&mut out, vector as u64);
    out.push(10);
    out
}

/// A lowercase hex digit.
pub open spec fn hex_lower(d: int) -> u8 {
    if d < 10 {
        (48 + d) as u8
    } else {
        (97 + d - 10) as u8
    }
}

/// The lowercase hex digits of a value, most significant first, without
/// leading zeros ("0" for zero).
pub open spec fn hex_lower_spec(v: nat) -> Seq<u8>
    decreases v,
{
    if v < 16 {
        seq![hex_lower(v as int)]
    } else {
        hex_lower_spec(v / 16).push(hex_lower((v % 16) as int))
    }
}

/// The lowercase hex digits of a value.
pub fn hex_lower_digits(v: u32) -> (r: Vec<u8>)
    ensures
        r@ == hex_lower_spec(v as nat),
    decreases v,
{
    let d = (v % 16) as u8;
    let c = if d < 10 {
        48 + d
    } else {
        97 + d - 10
    };
    if v < 16 {
        let mut r: Vec<u8> = Vec::new();
        r.push(c);
        r
    } else {
        let mut r = hex_lower_digits(v / 16);
        r.push(c);
        r
    }
}

/// The readback line of a redirection entry and the closing line.
pub fn ioapic_readback_message(low: u32, high: u32) -> (r: Vec<u8>)
    ensures
        r@ == IOAPIC_READBACK@ + hex_lower_spec(low as nat) + IOAPIC_HIGH@ + hex_lower_spec(high as nat) + seq![10u8]
            + IOAPIC_CONFIGURED@,
{
    let mut out: Vec<u8> = Vec::new();
    crate::shell::push_bytes(&mut out, &IOAPIC_READBACK);
    let l = hex_lower_digits(low);
    crate::shell::push_bytes(&mut out, l.as_slice());
    crate::shell::push_bytes(&mut out, &IOAPIC_HIGH);
    let h = hex_lower_digits(high);
    crate::shell::push_bytes(&mut out, h.as_slice());
    out.push(10);
    crate::shell::push_bytes(&mut out, &IOAPIC_CONFIGURED);
    out
}

} // verus!
