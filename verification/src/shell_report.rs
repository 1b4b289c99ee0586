//! Reports of the shell's diagnostic commands: the PIC registers, the
//! keyboard interrupt count and the keyboard test.

use vstd::prelude::*;
use crate::shell::{pic_bits, pic_bits_spec, push_bytes};

verus! {

/// "PIC Configuration:\n  PIC1 (IRQ 0-7):\n    Mask: "
pub const PIC_HEAD: [u8; 47] = [80, 73, 67, 32, 67, 111, 110, 102, 105, 103, 117, 114, 97, 116, 105, 111, 110, 58, 10, 32, 32, 80, 73, 67, 49, 32, 40, 73, 82, 81, 32, 48, 45, 55, 41, 58, 10, 32, 32, 32, 32, 77, 97, 115, 107, 58, 32];

/// " (IRQ1 enabled)\n"
pub const IRQ1_ENABLED: [u8; 16] = [32, 40, 73, 82, 81, 49, 32, 101, 110, 97, 98, 108, 101, 100, 41, 10];

/// " (IRQ1 DISABLED!)\n"
pub const IRQ1_DISABLED: [u8; 18] = [32, 40, 73, 82, 81, 49, 32, 68, 73, 83, 65, 66, 76, 69, 68, 33, 41, 10];

/// "    IRR:  "
pub const IRR_LABEL: [u8; 10] = [32, 32, 32, 32, 73, 82, 82, 58, 32, 32];

/// " (IRQ1 pending)\n"
pub const IRQ1_PENDING: [u8; 16] = [32, 40, 73, 82, 81, 49, 32, 112, 101, 110, 100, 105, 110, 103, 41, 10];

/// " (no IRQ1)\n"
pub const NO_IRQ1: [u8; 11] = [32, 40, 110, 111, 32, 73, 82, 81, 49, 41, 10];

/// "    ISR:  "
pub const ISR_LABEL: [u8; 10] = [32, 32, 32, 32, 73, 83, 82, 58, 32, 32];

/// " (IRQ1 in-service)\n"
pub const IRQ1_IN_SERVICE: [u8; 19] = [32, 40, 73, 82, 81, 49, 32, 105, 110, 45, 115, 101, 114, 118, 105, 99, 101, 41, 10];

/// " (no IRQ1 active)\n"
pub const NO_IRQ1_ACTIVE: [u8; 18] = [32, 40, 110, 111, 32, 73, 82, 81, 49, 32, 97, 99, 116, 105, 118, 101, 41, 10];

/// "  PIC2 (IRQ 8-15):\n    Mask: "
pub const PIC2_HEAD: [u8; 29] = [32, 32, 80, 73, 67, 50, 32, 40, 73, 82, 81, 32, 56, 45, 49, 53, 41, 58, 10, 32, 32, 32, 32, 77, 97, 115, 107, 58, 32];

/// "Keyboard IRQ Debug Info:\n  IRQ count: "
pub const IRQ_HEAD: [u8; 38] = [75, 101, 121, 98, 111, 97, 114, 100, 32, 73, 82, 81, 32, 68, 101, 98, 117, 103, 32, 73, 110, 102, 111, 58, 10, 32, 32, 73, 82, 81, 32, 99, 111, 117, 110, 116, 58, 32];

/// "(IRQs firing!)\n  Count: "
pub const IRQ_FIRING: [u8; 24] = [40, 73, 82, 81, 115, 32, 102, 105, 114, 105, 110, 103, 33, 41, 10, 32, 32, 67, 111, 117, 110, 116, 58, 32];

/// "0 (IRQ NOT firing!)\n"
pub const IRQ_SILENT: [u8; 20] = [48, 32, 40, 73, 82, 81, 32, 78, 79, 84, 32, 102, 105, 114, 105, 110, 103, 33, 41, 10];

/// "Testing keyboard (5 seconds, press any key)...\n"
pub const KBD_HEAD: [u8; 47] = [84, 101, 115, 116, 105, 110, 103, 32, 107, 101, 121, 98, 111, 97, 114, 100, 32, 40, 53, 32, 115, 101, 99, 111, 110, 100, 115, 44, 32, 112, 114, 101, 115, 115, 32, 97, 110, 121, 32, 107, 101, 121, 41, 46, 46, 46, 10];

/// "IRQ: "
pub const KBD_IRQ: [u8; 5] = [73, 82, 81, 58, 32];

/// "POLL: "
pub const KBD_POLL: [u8; 6] = [80, 79, 76, 76, 58, 32];

/// "TIMEOUT - No input received\n"
pub const KBD_TIMEOUT: [u8; 28] = [84, 73, 77, 69, 79, 85, 84, 32, 45, 32, 78, 111, 32, 105, 110, 112, 117, 116, 32, 114, 101, 99, 101, 105, 118, 101, 100, 10];

/// "SUCCESS - IRQ driver working!\n"
pub const KBD_IRQ_OK: [u8; 30] = [83, 85, 67, 67, 69, 83, 83, 32, 45, 32, 73, 82, 81, 32, 100, 114, 105, 118, 101, 114, 32, 119, 111, 114, 107, 105, 110, 103, 33, 10];

/// "IRQ NOT working - polling works\n"
pub const KBD_POLL_OK: [u8; 32] = [73, 82, 81, 32, 78, 79, 84, 32, 119, 111, 114, 107, 105, 110, 103, 32, 45, 32, 112, 111, 108, 108, 105, 110, 103, 32, 119, 111, 114, 107, 115, 10];

/// "Flushing keyboard buffer...\n"
pub const FLUSH_TEXT: [u8; 28] = [70, 108, 117, 115, 104, 105, 110, 103, 32, 107, 101, 121, 98, 111, 97, 114, 100, 32, 98, 117, 102, 102, 101, 114, 46, 46, 46, 10];

/// "Keyboard buffer flushed!\nIf keys still show wrong characters, IRQ1 may not be firing.\nTry typing to see if input works now.\n"
pub const FLUSHED_TEXT: [u8; 124] = [75, 101, 121, 98, 111, 97, 114, 100, 32, 98, 117, 102, 102, 101, 114, 32, 102, 108, 117, 115, 104, 101, 100, 33, 10, 73, 102, 32, 107, 101, 121, 115, 32, 115, 116, 105, 108, 108, 32, 115, 104, 111, 119, 32, 119, 114, 111, 110, 103, 32, 99, 104, 97, 114, 97, 99, 116, 101, 114, 115, 44, 32, 73, 82, 81, 49, 32, 109, 97, 121, 32, 110, 111, 116, 32, 98, 101, 32, 102, 105, 114, 105, 110, 103, 46, 10, 84, 114, 121, 32, 116, 121, 112, 105, 110, 103, 32, 116, 111, 32, 115, 101, 101, 32, 105, 102, 32, 105, 110, 112, 117, 116, 32, 119, 111, 114, 107, 115, 32, 110, 111, 119, 46, 10];

/// Whether IRQ1's bit (bit 1) is set in a PIC register.
pub open spec fn irq1_bit(v: u8) -> bool {
    (v / 2) % 2 == 1
}

/// What `pic` prints: for PIC1 its mask, request and in-service registers
/// with IRQ1's state in each, then PIC2's three registers.
pub open spec fn pic_report(pic1: (u8, u8, u8), pic2: (u8, u8, u8)) -> Seq<u8> {
    PIC_HEAD@ + pic_bits_spec(pic1.0) + (if !irq1_bit(pic1.0) { IRQ1_ENABLED@ } else { IRQ1_DISABLED@ })
        + IRR_LABEL@ + pic_bits_spec(pic1.1) + (if irq1_bit(pic1.1) { IRQ1_PENDING@ } else { NO_IRQ1@ })
        + ISR_LABEL@ + pic_bits_spec(pic1.2) + (if irq1_bit(pic1.2) { IRQ1_IN_SERVICE@ } else { NO_IRQ1_ACTIVE@ })
        + PIC2_HEAD@ + pic_bits_spec(pic2.0) + seq![10u8] + IRR_LABEL@ + pic_bits_spec(pic2.1) + seq![10u8]
        + ISR_LABEL@ + pic_bits_spec(pic2.2) + seq![10u8]
}

/// Whether IRQ1's bit is set.
fn irq1_set(v: u8) -> (r: bool)
    ensures
        r == irq1_bit(v),
{
    proof {
        crate::bits::lemma_u8_flags();
    }
    v & 0x02 != 0
}

/// The `pic` command's report from the PICs' (mask, IRR, ISR) registers.
pub fn cmd_pic(pic1: (u8, u8, u8), pic2: (u8, u8, u8)) -> (r: Vec<u8>)
    ensures
        r@ == pic_report(pic1, pic2),
{
    let mut out: Vec<u8> = Vec::new();
    push_bytes(&mut out, &PIC_HEAD);
    let t = pic_bits(pic1.0);
    push_bytes(&mut out, t.as_slice());
    if !irq1_set(pic1.0) {
        push_bytes(&mut out, &IRQ1_ENABLED);
    } else {
        push_bytes(&mut out, &IRQ1_DISABLED);
    }
    push_bytes(&mut out, &IRR_LABEL);
    let t = pic_bits(pic1.1);
    push_bytes(&mut out, t.as_slice());
    if irq1_set(pic1.1) {
        push_bytes(&mut out, &IRQ1_PENDING);
    } else {
        push_bytes(&mut out, &NO_IRQ1);
    }
    push_bytes(&mut out, &ISR_LABEL);
    let t = pic_bits(pic1.2);
    push_bytes(&mut out, t.as_slice());
    if irq1_set(pic1.2) {
        push_bytes(&mut out, &IRQ1_IN_SERVICE);
    } else {
        push_bytes(&mut out, &NO_IRQ1_ACTIVE);
    }
    let ghost first = out@;
    push_bytes(&mut out, &PIC2_HEAD);
    let t = pic_bits(pic2.0);
    push_bytes(&mut out, t.as_slice());
    out.push(10);
    push_bytes(&mut out, &IRR_LABEL);
    let t = pic_bits(pic2.1);
    push_bytes(&mut out, t.as_slice());
    out.push(10);
    push_bytes(&mut out, &ISR_LABEL);
    let t = pic_bits(pic2.2);
    push_bytes(&mut out, t.as_slice());
    out.push(10);
    assert(out@ =~= pic_report(pic1, pic2));
    out
}

/// The character showing an interrupt count: a digit up to 9, then
/// letters from `A`.
pub open spec fn count_char(irq_count: u8) -> u8 {
    if irq_count <= 9 {
        (48 + irq_count) as u8
    } else {
        (65 + irq_count - 10) as u8
    }
}

/// What `irq` prints for an interrupt count.
pub open spec fn irq_report(irq_count: u8) -> Seq<u8> {
    IRQ_HEAD@ + (if irq_count > 0 {
        IRQ_FIRING@ + seq![count_char(irq_count), 10u8]
    } else {
        IRQ_SILENT@
    })
}

/// The `irq` command's report. The count's letter is computed as
/// `A + count - 10` in bytes, which overflows for counts above 190.
pub fn cmd_irq(irq_count: u8) -> (r: Vec<u8>)
    requires
        irq_count <= 190,
    ensures
        r@ == irq_report(irq_count),
{
    let mut out: Vec<u8> = Vec::new();
    push_bytes(&mut out, &IRQ_HEAD);
    if irq_count > 0 {
        push_bytes(&mut out, &IRQ_FIRING);
        let c = if irq_count <= 9 {
            48 + irq_count
        } else {
            65 + irq_count - 10
        };
        out.push(c);
        out.push(10);
    } else {
        push_bytes(&mut out, &IRQ_SILENT);
    }
    assert(out@ =~= irq_report(irq_count));
    out
}

/// How the keyboard test ended: no key in time, or a key through the
/// interrupt path, or a key through direct polling.
#[derive(PartialEq, Eq, Structural, Debug, Clone, Copy)]
pub enum KbdTestOutcome {
    Timeout,
    Irq(u8),
    Poll(u8),
}

/// What `kbd` prints once the wait is over.
pub open spec fn kbd_report(outcome: KbdTestOutcome) -> Seq<u8> {
    match outcome {
        KbdTestOutcome::Timeout => KBD_TIMEOUT@,
        KbdTestOutcome::Irq(c) => KBD_IRQ@ + seq![c, 10u8] + KBD_IRQ_OK@,
        KbdTestOutcome::Poll(c) => KBD_POLL@ + seq![c, 10u8] + KBD_POLL_OK@,
    }
}

/// The `kbd` command's closing report.
pub fn cmd_kbd_report(outcome: KbdTestOutcome) -> (r: Vec<u8>)
    ensures
        r@ == kbd_report(outcome),
{
    let mut out: Vec<u8> = Vec::new();
    match outcome {
        KbdTestOutcome::Timeout => push_bytes(&mut out, &KBD_TIMEOUT),
        KbdTestOutcome::Irq(c) => {
            push_bytes(&mut out, &KBD_IRQ);
            out.push(c);
            out.push(10);
            push_bytes(&mut out, &KBD_IRQ_OK);
        },
        KbdTestOutcome::Poll(c) => {
            push_bytes(&mut out, &KBD_POLL);
            out.push(c);
            out.push(10);
            push_bytes(&mut out, &KBD_POLL_OK);
        },
    }
    assert(out@ =~= kbd_report(outcome));
    out
}

} // verus!
