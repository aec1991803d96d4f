//! Bytes, 16-bit words and pages.

use vstd::prelude::*;

verus! {

/// The word with low byte `lo` and high byte `hi`.
pub open spec fn word(lo: u8, hi: u8) -> u16 {
    (hi * 256 + lo) as u16
}

/// The low byte of `w`.
pub open spec fn low(w: u16) -> u8 {
    (w % 256) as u8
}

/// The high byte of `w`, which is also the number of its page.
pub open spec fn high(w: u16) -> u8 {
    (w / 256) as u8
}

/// Two addresses lie on different 256-byte pages.
pub open spec fn page_differs(from: u16, to: u16) -> bool {
    from / 256 != to / 256
}

/// A byte read as a two's complement number.
pub open spec fn signed(b: u8) -> int {
    if b < 128 {
        b as int
    } else {
        b - 256
    }
}

/// `base` moved by the signed displacement `offset`, modulo the address space.
pub open spec fn displaced(base: u16, offset: u8) -> u16 {
    ((base + signed(offset)) % 0x10000) as u16
}

/// Puts a word together from its low and its high byte.
pub fn make_word(lo: u8, hi: u8) -> (w: u16)
    ensures
        w == word(lo, hi),
{
    (hi as u16) * 256 + (lo as u16)
}

/// The low byte of a word.
pub fn low_byte(w: u16) -> (b: u8)
    ensures
        b == low(w),
{
    (w % 256) as u8
}

/// The high byte of a word.
pub fn high_byte(w: u16) -> (b: u8)
    ensures
        b == high(w),
{
    (w / 256) as u8
}

/// Whether two addresses lie on different pages.
pub fn crosses_page(from: u16, to: u16) -> (crossed: bool)
    ensures
        crossed == page_differs(from, to),
{
    from / 256 != to / 256
}

/// Moves `base` by the signed displacement `offset`, wrapping at both ends
/// of the address space.
pub fn displace(base: u16, offset: u8) -> (target: u16)
    ensures
        target == displaced(base, offset),
{
    if offset < 0x80 {
        base.wrapping_add(offset as u16)
    } else {
        base.wrapping_sub(0x100 - offset as u16)
    }
}

/// `byte` moved one bit to the left, with `carry` coming in as bit 0.
pub open spec fn shifted_left(byte: u8, carry: bool) -> u8 {
    ((byte * 2 + if carry {
        1int
    } else {
        0int
    }) % 256) as u8
}

/// `byte` moved one bit to the right, with `carry` coming in as bit 7.
pub open spec fn shifted_right(byte: u8, carry: bool) -> u8 {
    (byte / 2 + if carry {
        128int
    } else {
        0int
    }) as u8
}

/// Moves `byte` one bit to the left through the carry: returns the byte
/// with `carry` in bit 0, and the bit 7 that fell out.
pub fn rotate_left(byte: u8, carry: bool) -> (res: (u8, bool))
    ensures
        res.0 == shifted_left(byte, carry),
        res.1 == (byte >= 0x80),
{
    let low: u8 = if carry {
        0x01
    } else {
        0x00
    };
    assert(((byte << 1) | low) == (byte * 2 + low) % 256) by (bit_vector)
        requires
            low <= 1,
    ;
    assert((byte & 0x80 != 0) == (byte >= 0x80)) by (bit_vector);
    ((byte << 1) | low, byte & 0x80 != 0)
}

/// Moves `byte` one bit to the right through the carry: returns the byte
/// with `carry` in bit 7, and the bit 0 that fell out.
pub fn rotate_right(byte: u8, carry: bool) -> (res: (u8, bool))
    ensures
        res.0 == shifted_right(byte, carry),
        res.1 == (byte % 2 == 1),
{
    let high: u8 = if carry {
        0x80
    } else {
        0x00
    };
    assert(((byte >> 1) | high) == byte / 2 + high) by (bit_vector)
        requires
            high == 0x80 || high == 0,
    ;
    assert((byte & 0x01 != 0) == (byte % 2 == 1)) by (bit_vector);
    ((byte >> 1) | high, byte & 0x01 != 0)
}

/// A word is put together again from its two bytes.
pub proof fn lemma_word_of_bytes(w: u16)
    ensures
        word(low(w), high(w)) == w,
{
}

/// The two bytes of a word are the ones it was made of.
pub proof fn lemma_bytes_of_word(lo: u8, hi: u8)
    ensures
        low(word(lo, hi)) == lo,
        high(word(lo, hi)) == hi,
{
}

} // verus!
