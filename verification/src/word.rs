//! Packing and splitting 16-bit little-endian words: every 16-bit bus and
//! stack access is built strictly from two 8-bit accesses, low byte first.

use vstd::prelude::*;

verus! {

/// The 16-bit value with low byte `lo` and high byte `hi`.
pub open spec fn word(lo: u8, hi: u8) -> u16 {
    (lo + 256 * hi) as u16
}

/// Low byte of a 16-bit value.
pub open spec fn lo_byte(d: u16) -> u8 {
    (d % 256) as u8
}

/// High byte of a 16-bit value.
pub open spec fn hi_byte(d: u16) -> u8 {
    (d / 256) as u8
}

/// The shift-and-mask forms used by the executable code agree with the
/// arithmetic definitions above, and packing inverts splitting.
pub proof fn lemma_word_parts(lo: u8, hi: u8, d: u16)
    by (bit_vector)
    ensures
        ((hi as u16) << 8) | (lo as u16) == word(lo, hi),
        (d & 0xFF) as u8 == lo_byte(d),
        (d >> 8) as u8 == hi_byte(d),
        word(lo_byte(d), hi_byte(d)) == d,
        lo_byte(word(lo, hi)) == lo,
        hi_byte(word(lo, hi)) == hi,
{
}

/// A branch offset byte sign-extended to 16 bits: offsets 0x80 and above
/// are negative displacements.
pub open spec fn sign_ext(b: u8) -> u16 {
    if b >= 0x80 {
        (0xFF00 + b) as u16
    } else {
        b as u16
    }
}

/// Packs two bytes into a little-endian word.
pub fn make_word(lo: u8, hi: u8) -> (r: u16)
    ensures
        r == word(lo, hi),
{
    proof {
        lemma_word_parts(lo, hi, 0);
    }
    ((hi as u16) << 8) | (lo as u16)
}

/// Low byte of a word.
pub fn word_lo(d: u16) -> (r: u8)
    ensures
        r == lo_byte(d),
{
    proof {
        lemma_word_parts(0, 0, d);
    }
    (d & 0xFF) as u8
}

/// High byte of a word.
pub fn word_hi(d: u16) -> (r: u8)
    ensures
        r == hi_byte(d),
{
    proof {
        lemma_word_parts(0, 0, d);
    }
    (d >> 8) as u8
}

} // verus!
