//! Little-endian field reads out of byte images (ELF and PE/COFF headers).

use vstd::prelude::*;

verus! {

/// The little-endian 16-bit value at `off`.
pub open spec fn le16(s: Seq<u8>, off: int) -> int {
    s[off] + s[off + 1] * 0x100
}

/// The little-endian 32-bit value at `off`.
pub open spec fn le32(s: Seq<u8>, off: int) -> int {
    le16(s, off) + le16(s, off + 2) * 0x1_0000
}

/// The little-endian 64-bit value at `off`.
pub open spec fn le64(s: Seq<u8>, off: int) -> int {
    le32(s, off) + le32(s, off + 4) * 0x1_0000_0000
}

/// A little-endian 64-bit field is a `u64` value.
pub proof fn lemma_le64_range(s: Seq<u8>, off: int)
    ensures
        0 <= le64(s, off) < 0x1_0000_0000_0000_0000,
{
    let a = le32(s, off);
    let b = le32(s, off + 4);
    assert(0 <= a < 0x1_0000_0000);
    assert(0 <= b < 0x1_0000_0000);
    assert(0 <= a + b * 0x1_0000_0000 < 0x1_0000_0000_0000_0000) by (nonlinear_arith)
        requires
            0 <= a < 0x1_0000_0000,
            0 <= b < 0x1_0000_0000,
    ;
}

/// Reads the little-endian `u16` at `off`.
pub fn read_u16_le(data: &[u8], off: usize) -> (r: u16)
    requires
        off + 2 <= data.len(),
    ensures
        r == le16(data@, off as int),
{
    data[off] as u16 + (data[off + 1] as u16) * 0x100
}

/// Reads the little-endian `u32` at `off`.
pub fn read_u32_le(data: &[u8], off: usize) -> (r: u32)
    requires
        off + 4 <= data.len(),
    ensures
        r == le32(data@, off as int),
{
    let lo = read_u16_le(data, off) as u32;
    let hi = read_u16_le(data, off + 2) as u32;
    lo + hi * 0x1_0000
}

/// Reads the little-endian `u64` at `off`.
pub fn read_u64_le(data: &[u8], off: usize) -> (r: u64)
    requires
        off + 8 <= data.len(),
    ensures
        r == le64(data@, off as int),
{
    let lo = read_u32_le(data, off) as u64;
    let hi = read_u32_le(data, off + 4) as u64;
    lo + hi * 0x1_0000_0000
}

} // verus!
