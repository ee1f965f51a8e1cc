//! Facts about bitwise operators that the default solver does not know.

use vstd::prelude::*;

verus! {

/// The 16-bit value with low byte `lo` and high byte `hi`.
pub open spec fn word(lo: u8, hi: u8) -> u16 {
    (hi as int * 256 + lo as int) as u16
}

/// Joins two bytes into a little-endian 16-bit value.
pub fn make_word(lo: u8, hi: u8) -> (w: u16)
    ensures
        w == word(lo, hi),
{
    (hi as u16) * 256 + (lo as u16)
}

/// The low byte of a 16-bit value.
pub open spec fn low_byte(w: u16) -> u8 {
    (w as int % 256) as u8
}

/// The high byte of a 16-bit value.
pub open spec fn high_byte(w: u16) -> u8 {
    (w as int / 256) as u8
}

/// The low byte of a 16-bit value.
pub fn lo_byte(w: u16) -> (b: u8)
    ensures
        b == low_byte(w),
{
    (w % 256) as u8
}

/// The high byte of a 16-bit value.
pub fn hi_byte(w: u16) -> (b: u8)
    ensures
        b == high_byte(w),
{
    (w / 256) as u8
}

/// Splitting a word into bytes and joining them again gives the word back.
pub proof fn lemma_word_of_bytes(w: u16)
    ensures
        word(low_byte(w), high_byte(w)) == w,
{
}

/// Joining two bytes and splitting the word again gives the bytes back.
pub proof fn lemma_bytes_of_word(lo: u8, hi: u8)
    ensures
        low_byte(word(lo, hi)) == lo,
        high_byte(word(lo, hi)) == hi,
{
}

/// A masked value is at most the mask and at most the value.
pub proof fn lemma_u8_and_le(x: u8, m: u8)
    by (bit_vector)
    ensures
        (x & m) <= m,
        (x & m) <= x,
{
}

/// A masked value is at most the mask and at most the value.
pub proof fn lemma_u16_and_le(x: u16, m: u16)
    by (bit_vector)
    ensures
        (x & m) <= m,
        (x & m) <= x,
{
}

/// A value shifted right is at most the value.
pub proof fn lemma_u16_shr_le(x: u16, k: u16)
    by (bit_vector)
    requires
        k < 16,
    ensures
        (x >> k) <= x,
{
}

} // verus!
