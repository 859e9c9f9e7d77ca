//! Bytes and words: splitting, joining, sign interpretation and displacement,
//! all stated arithmetically.

use vstd::prelude::*;

verus! {

/// The low byte of a word.
pub open spec fn low(w: u16) -> u8 {
    (w % 256) as u8
}

/// The high byte of a word.
pub open spec fn high(w: u16) -> u8 {
    (w / 256) as u8
}

/// The word made of a high and a low byte.
pub open spec fn join(hi: u8, lo: u8) -> u16 {
    (hi * 256 + lo) as u16
}

/// The word `w` with its low byte replaced and its high byte kept.
pub open spec fn with_low(w: u16, lo: u8) -> u16 {
    join(high(w), lo)
}

/// The value of a byte read as a two's-complement number.
pub open spec fn signed8(b: u8) -> int {
    if b < 128 {
        b as int
    } else {
        b - 256
    }
}

/// The value of a word read as a two's-complement number.
pub open spec fn signed16(w: u16) -> int {
    if w < 32768 {
        w as int
    } else {
        w - 65536
    }
}

/// `base + delta` within one bank: the sum wraps at sixteen bits.
pub open spec fn displaced(base: u16, delta: int) -> u16 {
    ((base + delta) % 65536) as u16
}

/// The low byte of a word.
pub fn low_byte(w: u16) -> (b: u8)
    ensures
        b == low(w),
{
    (w % 256) as u8
}

/// The high byte of a word.
pub fn high_byte(w: u16) -> (b: u8)
    ensures
        b == high(w),
{
    (w / 256) as u8
}

/// The word made of a high and a low byte.
pub fn make_word(hi: u8, lo: u8) -> (w: u16)
    ensures
        w == join(hi, lo),
{
    (hi as u16) * 256 + (lo as u16)
}

/// The word with its low byte replaced and its high byte kept.
pub fn replace_low(w: u16, lo: u8) -> (r: u16)
    ensures
        r == with_low(w, lo),
{
    make_word(high_byte(w), lo)
}

/// A byte as a word.
pub fn widen(b: u8) -> (w: u16)
    ensures
        w == b,
{
    b as u16
}

/// A byte read as a two's-complement number.
pub fn to_signed8(b: u8) -> (r: i8)
    ensures
        r == signed8(b),
{
    if b < 128 {
        b as i8
    } else {
        (b as i16 - 256) as i8
    }
}

/// A word read as a two's-complement number.
pub fn to_signed16(w: u16) -> (r: i16)
    ensures
        r == signed16(w),
{
    if w < 32768 {
        w as i16
    } else {
        (w as i32 - 65536) as i16
    }
}

/// `base + delta` within one bank: the sum wraps at sixteen bits.
pub fn displace(base: u16, delta: i16) -> (r: u16)
    ensures
        r == displaced(base, delta as int),
{
    let sum: i32 = base as i32 + delta as i32;
    if sum < 0 {
        (sum + 65536) as u16
    } else if sum > 65535 {
        (sum - 65536) as u16
    } else {
        sum as u16
    }
}

/// A word is the join of its two bytes.
pub proof fn lemma_join_split(w: u16)
    ensures
        join(high(w), low(w)) == w,
        with_low(w, low(w)) == w,
{
}

/// The bytes of a joined word are the bytes it was joined from.
pub proof fn lemma_split_join(hi: u8, lo: u8)
    ensures
        high(join(hi, lo)) == hi,
        low(join(hi, lo)) == lo,
{
}

} // verus!
