//! Decoding of the bytes a register query returns.

use vstd::prelude::*;

verus! {

/// The unsigned 16-bit value of two bytes, the high-order byte first.
pub open spec fn word(hi: u8, lo: u8) -> int {
    hi * 256 + lo
}

/// The value of a 16-bit pattern read as two's complement.
pub open spec fn twos_complement(raw: u16) -> int {
    if raw < 0x8000 {
        raw as int
    } else {
        raw - 0x1_0000
    }
}

/// Two bytes spell exactly one 16-bit number, and the number gives both bytes
/// back: the first is its high-order byte, the second its low-order byte.
pub proof fn lemma_word_bytes(hi: u8, lo: u8)
    ensures
        0 <= word(hi, lo) <= 0xFFFF,
        word(hi, lo) / 256 == hi,
        word(hi, lo) % 256 == lo,
{
}

/// Joins two bytes into one 16-bit value. The byte received first is the
/// high-order byte.
pub fn combine(hi: u8, lo: u8) -> (value: u16)
    ensures
        value == word(hi, lo),
{
    let value: u16 = (hi as u16) << 8 | (lo as u16);
    assert(((hi as u16) << 8 | (lo as u16)) == (hi as u16) * 256 + (lo as u16)) by (bit_vector);
    value
}

/// Reads a 16-bit pattern as a signed number in two's complement.
pub fn signed(raw: u16) -> (value: i16)
    ensures
        value == twos_complement(raw),
{
    let value: i16 = raw as i16;
    assert(raw < 0x8000 ==> (raw as i16) == raw) by (bit_vector);
    assert(raw >= 0x8000 ==> (raw as i16) == raw - 0x1_0000) by (bit_vector);
    value
}

/// Reads the busy register's byte: any nonzero value means busy.
pub fn flag(byte: u8) -> (set: bool)
    ensures
        set == (byte != 0),
{
    byte > 0
}

} // verus!
