use vstd::prelude::*;

verus! {

/// An unbounded value reduced modulo 2^16, the wraparound of all 16-bit
/// register arithmetic.
pub open spec fn wrap16(val: int) -> u16 {
    (((val % 0x10000) + 0x10000) % 0x10000) as u16
}

/// The low byte of a 16-bit value.
pub open spec fn word_lo(val: u16) -> u8 {
    (val % 0x100) as u8
}

/// The high byte of a 16-bit value.
pub open spec fn word_hi(val: u16) -> u8 {
    (val / 0x100) as u8
}

/// Two bytes composed into a 16-bit value, high byte first.
pub open spec fn pair16(hi: u8, lo: u8) -> u16 {
    (hi * 0x100 + lo) as u16
}

/// Splitting a word into bytes and composing them back restores the word.
pub proof fn lemma_pair_split(val: u16)
    ensures
        pair16(word_hi(val), word_lo(val)) == val,
{
}

/// Composing two bytes and splitting the result restores the bytes.
pub proof fn lemma_split_pair(hi: u8, lo: u8)
    ensures
        word_hi(pair16(hi, lo)) == hi,
        word_lo(pair16(hi, lo)) == lo,
{
}

} // verus!
