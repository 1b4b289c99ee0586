//! Digit formatting used by the consoles and the diagnostics output:
//! fixed-width upper-case hexadecimal and plain decimal.

use vstd::prelude::*;

verus! {

/// ASCII of an upper-case hexadecimal digit.
pub open spec fn hex_char(nibble: int) -> u8
    recommends
        0 <= nibble < 16,
{
    if nibble < 10 {
        (48 + nibble) as u8
    } else {
        (55 + nibble) as u8
    }
}

/// The `width` least significant hexadecimal digits of `v`, most
/// significant first.
pub open spec fn hex_spec(v: nat, width: nat) -> Seq<u8>
    decreases width,
{
    if width == 0 {
        Seq::empty()
    } else {
        hex_spec(v / 16, (width - 1) as nat).push(hex_char((v % 16) as int))
    }
}

/// The decimal digits of `v`, most significant first, without leading
/// zeros ("0" for zero).
pub open spec fn dec_spec(v: nat) -> Seq<u8>
    decreases v,
{
    if v < 10 {
        seq![(48 + v) as u8]
    } else {
        dec_spec(v / 10).push((48 + v % 10) as u8)
    }
}

/// The number a sequence of digits in `base` denotes; `digit` reads one
/// ASCII digit.
pub open spec fn digits_value(s: Seq<u8>, base: nat) -> nat
    decreases s.len(),
{
    if s.len() == 0 {
        0
    } else {
        digits_value(s.drop_last(), base) * base + digit_of(s.last())
    }
}

/// Value of one ASCII digit (`0-9`, `A-F`).
pub open spec fn digit_of(c: u8) -> nat {
    if 48 <= c <= 57 {
        (c - 48) as nat
    } else if 65 <= c <= 70 {
        (c - 55) as nat
    } else {
        0
    }
}

/// `16` to the power `n`.
pub open spec fn pow16(n: nat) -> nat
    decreases n,
{
    if n == 0 {
        1
    } else {
        16 * pow16((n - 1) as nat)
    }
}

/// ASCII of an upper-case hexadecimal digit.
pub fn hex_digit(nibble: u8) -> (r: u8)
    requires
        nibble < 16,
    ensures
        r == hex_char(nibble as int),
{
    if nibble < 10 {
        48 + nibble
    } else {
        55 + nibble
    }
}

/// The two hexadecimal digits of a byte, high digit first.
pub fn hex_byte(value: u8) -> (r: (u8, u8))
    ensures
        r.0 == hex_char(value as int / 16),
        r.1 == hex_char(value as int % 16),
        seq![r.0, r.1] == hex_spec(value as nat, 2),
{
    let high = (value >> 4) & 0x0F;
    let low = value & 0x0F;
    assert(high == value / 16 && low == value % 16) by (bit_vector)
        requires
            high == (value >> 4) & 0x0F,
            low == value & 0x0F,
    ;
    proof {
        reveal_with_fuel(hex_spec, 3);
        assert((value as nat / 16) / 16 == 0);
        assert((value as nat / 16) % 16 == value as nat / 16);
    }
    (hex_digit(high), hex_digit(low))
}

/// The `width` least significant hexadecimal digits of `v`, most
/// significant first.
pub fn hex_fixed(v: u64, width: usize) -> (r: Vec<u8>)
    ensures
        r@ == hex_spec(v as nat, width as nat),
    decreases width,
{
    if width == 0 {
        Vec::new()
    } else {
        let mut r = hex_fixed(v / 16, width - 1);
        r.push(hex_digit((v % 16) as u8));
        r
    }
}

/// Appends the `width` low hexadecimal digits of `v`.
pub fn push_hex(out: &mut Vec<u8>, v: u64, width: usize)
    ensures
        final(out)@ == old(out)@ + hex_spec(v as nat, width as nat),
{
    let digits = hex_fixed(v, width);
    crate::shell::push_bytes(out, digits.as_slice());
}

/// The decimal digits of `v` without leading zeros.
pub fn dec_digits(v: u64) -> (r: Vec<u8>)
    ensures
        r@ == dec_spec(v as nat),
    decreases v,
{
    if v < 10 {
        let mut r = Vec::new();
        r.push(48 + v as u8);
        r
    } else {
        let mut r = dec_digits(v / 10);
        r.push(48 + (v % 10) as u8);
        r
    }
}

/// Law: the fixed-width hexadecimal digits denote the value modulo
/// `16^width`.
pub proof fn lemma_hex_value(v: nat, width: nat)
    ensures
        hex_spec(v, width).len() == width,
        digits_value(hex_spec(v, width), 16) == v % pow16(width),
    decreases width,
{
    if width > 0 {
        let w1 = (width - 1) as nat;
        lemma_hex_value(v / 16, w1);
        let s = hex_spec(v, width);
        assert(s.drop_last() =~= hex_spec(v / 16, w1));
        assert(digit_of(hex_char((v % 16) as int)) == v % 16);
        let p = pow16(w1);
        assert(p > 0) by {
            lemma_pow16_pos(w1);
        }
        assert((v / 16) % p * 16 + v % 16 == v % (16 * p)) by (nonlinear_arith)
            requires
                p > 0,
        {
            vstd::arithmetic::div_mod::lemma_breakdown(v as int, 16, p as int);
        }
    }
}

/// `16^n` is positive.
pub proof fn lemma_pow16_pos(n: nat)
    ensures
        pow16(n) > 0,
    decreases n,
{
    if n > 0 {
        lemma_pow16_pos((n - 1) as nat);
    }
}

/// Law: the decimal digits denote the value.
pub proof fn lemma_dec_value(v: nat)
    ensures
        digits_value(dec_spec(v), 10) == v,
        dec_spec(v).len() > 0,
    decreases v,
{
    if v < 10 {
        let s = dec_spec(v);
        assert(s.drop_last() =~= Seq::<u8>::empty());
        assert(digits_value(s.drop_last(), 10) == 0);
        assert(digit_of(s.last()) == v);
    } else {
        lemma_dec_value(v / 10);
        let s = dec_spec(v);
        assert(s.drop_last() =~= dec_spec(v / 10));
        assert(digit_of(s.last()) == v % 10);
        assert((v / 10) * 10 + v % 10 == v);
    }
}

} // verus!
