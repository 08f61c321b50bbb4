//! Helpers for splitting and joining 8-bit halves of 16-bit words, and for
//! the sign extension used by the relative-jump and stack-offset instructions.
use vstd::prelude::*;

verus! {

/// The low byte of a 16-bit word.
pub open spec fn lo8(v: u16) -> u8 {
    (v % 256) as u8
}

/// The high byte of a 16-bit word.
pub open spec fn hi8(v: u16) -> u8 {
    (v / 256) as u8
}

/// Joins a high and a low byte into one 16-bit word, high byte first.
pub open spec fn pair16(hi: u8, lo: u8) -> u16 {
    (hi * 256 + lo) as u16
}

/// An 8-bit operand sign-extended to 16 bits by two's complement.
pub open spec fn sext16(e: u8) -> u16 {
    if e >= 0x80 {
        (e + 0xFF00) as u16
    } else {
        e as u16
    }
}

/// The arithmetic pairing above coincides with the usual shift-or form.
pub proof fn lemma_pair16_is_shift_or(hi: u8, lo: u8)
    by (bit_vector)
    ensures
        pair16(hi, lo) == ((hi as u16) << 8) | (lo as u16),
        hi8(pair16(hi, lo)) == hi,
        lo8(pair16(hi, lo)) == lo,
{
}

pub fn split16(v: u16) -> (r: (u8, u8))
    ensures
        r.0 == hi8(v),
        r.1 == lo8(v),
        pair16(r.0, r.1) == v,
{
    ((v / 256) as u8, (v % 256) as u8)
}

pub fn join16(hi: u8, lo: u8) -> (r: u16)
    ensures
        r == pair16(hi, lo),
        hi8(r) == hi,
        lo8(r) == lo,
{
    (hi as u16) * 256 + (lo as u16)
}

pub fn sign_extend(e: u8) -> (r: u16)
    ensures
        r == sext16(e),
{
    if e >= 0x80 {
        (e as u16) + 0xFF00
    } else {
        e as u16
    }
}

} // verus!
