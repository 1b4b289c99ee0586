//! Bit-field extraction on register values stated as arithmetic, for the
//! decoders that read hardware registers field by field.

use vstd::prelude::*;

verus! {

/// Byte, half-word and bit fields of a 32-bit value as divisions and
/// remainders.
pub proof fn lemma_u32_fields()
    by (bit_vector)
    ensures
        forall|v: u32| #[trigger] (v & 0xFF) == v % 0x100,
        forall|v: u32| #[trigger] ((v >> 8) & 0xFF) == (v / 0x100) % 0x100,
        forall|v: u32| #[trigger] ((v >> 16) & 0xFF) == (v / 0x1_0000) % 0x100,
        forall|v: u32| #[trigger] ((v >> 24) & 0xFF) == v / 0x100_0000,
        forall|v: u32| #[trigger] (v >> 24) == v / 0x100_0000,
        forall|v: u32| #[trigger] (v >> 8) == v / 0x100,
        forall|v: u32| #[trigger] (v & 0xFFFF) == v % 0x1_0000,
        forall|v: u32| #[trigger] ((v >> 16) & 0xFFFF) == v / 0x1_0000,
        forall|v: u32| #[trigger] (v & 1) == v % 2,
        forall|v: u32| (#[trigger] (v & 4) != 0) == ((v / 4) % 2 == 1),
        forall|v: u32| (#[trigger] (v & 0x20) != 0) == ((v / 32) % 2 == 1),
        forall|v: u32| #[trigger] (v & 0xF) == v % 16,
        forall|v: u32| #[trigger] (v & 0xFFFF_FFF0) == v - v % 16,
        forall|v: u32| #[trigger] (v & 0xFFFF_FFFE) == v - v % 2,
        forall|v: u32| #[trigger] ((v >> 10) & 0x3F) == (v / 1024) % 64,
        forall|v: u32| #[trigger] (v & 0x00FF_FFFF) == v % 0x100_0000,
        forall|v: u32| #[trigger] ((v >> 24) & 0x0F) == (v / 0x100_0000) % 16,
        forall|v: u32| #[trigger] ((v & 0xF000) >> 12) == (v / 0x1000) % 16,
{
}

/// Halves and alignment of a 64-bit value as divisions and remainders.
pub proof fn lemma_u64_fields()
    by (bit_vector)
    ensures
        forall|v: u64| #[trigger] (v & 0xFFFF_FFFF) == v % 0x1_0000_0000,
        forall|v: u64| #[trigger] ((v >> 32) & 0xFFFF_FFFF) == v / 0x1_0000_0000,
        forall|v: u64| #[trigger] (v & 0xFFFF) == v % 0x1_0000,
        forall|v: u64| #[trigger] ((v >> 16) & 0xFFFF) == (v / 0x1_0000) % 0x1_0000,
        forall|v: u64| (#[trigger] (v & 0x3F) == 0) == (v % 64 == 0),
{
}

/// Flag bits of a byte as comparisons.
pub proof fn lemma_u8_flags()
    by (bit_vector)
    ensures
        forall|v: u8| #[trigger] (v & 0x0F) == v % 16,
        forall|v: u8| (#[trigger] (v & 0x01) == 0) == (v % 2 == 0),
        forall|v: u8| (#[trigger] (v & 0x20) != 0) == ((v / 32) % 2 == 1),
        forall|v: u8| (#[trigger] (v & 0xC0) != 0) == (v >= 64),
        forall|v: u8| (#[trigger] (v & 0x80) != 0) == (v >= 0x80),
        forall|v: u8| #[trigger] (v & 0x7F) == v % 0x80,
        forall|v: u8| (#[trigger] (v & 0x02) != 0) == ((v / 2) % 2 == 1),
{
}

/// Two 32-bit halves joined into a 64-bit value.
pub proof fn lemma_join_halves(hi: u64, lo: u64)
    by (bit_vector)
    requires
        hi < 0x1_0000_0000,
        lo < 0x1_0000_0000,
    ensures
        (hi << 32u64) | lo == hi * 0x1_0000_0000 + lo,
{
}

/// Low and high byte of a 16-bit value.
pub proof fn lemma_u16_bytes()
    by (bit_vector)
    ensures
        forall|v: u16| #[trigger] (v & 0xFF) == v % 0x100,
        forall|v: u16| #[trigger] (v >> 8) == v / 0x100,
{
}

/// Truncating to 16 bits keeps the value modulo 0x10000.
pub proof fn lemma_low_u16(b: usize, base: u16)
    by (bit_vector)
    requires
        base == (b as u16),
    ensures
        base == b % 0x1_0000,
{
}

} // verus!
