//! Status register bit masks, bit 7 down to bit 0: Negative, Overflow,
//! Unused (always pushed/restored as set), Break, Decimal, Interrupt
//! disable, Zero, Carry.

use vstd::prelude::*;

verus! {

/// Carry (bit 0).
pub const CARRY: u8 = 0b0000_0001;

/// Zero (bit 1).
pub const ZERO: u8 = 0b0000_0010;

/// Interrupt disable (bit 2).
pub const INTERRUPT_DISABLE: u8 = 0b0000_0100;

/// Decimal mode (bit 3); accepted but never alters arithmetic on this
/// platform, which has no BCD unit.
pub const DECIMAL: u8 = 0b0000_1000;

/// Break (bit 4); a push-time artifact, forced on in every pushed copy of
/// the status and forced off on every restore.
pub const BREAK: u8 = 0b0001_0000;

/// Unused (bit 5); forced on whenever the status is restored.
pub const UNUSED: u8 = 0b0010_0000;

/// Overflow (bit 6).
pub const OVERFLOW: u8 = 0b0100_0000;

/// Negative (bit 7).
pub const NEGATIVE: u8 = 0b1000_0000;

/// The flag named by `mask` is set in `status`.
pub open spec fn has_flag(status: u8, mask: u8) -> bool {
    status & mask == mask
}

/// `status` with the flag named by `mask` forced to `on`.
pub open spec fn set_bit(status: u8, mask: u8, on: bool) -> u8 {
    if on {
        status | mask
    } else {
        status & !mask
    }
}

/// `status` after a zero/negative update for `result`: Zero tracks
/// `result == 0`, Negative tracks bit 7 of `result`.
pub open spec fn with_nz(status: u8, result: u8) -> u8 {
    set_bit(set_bit(status, ZERO, result == 0), NEGATIVE, result & 0x80 == 0x80)
}

/// Universal mask facts behind `set_bit`/`has_flag` reasoning: setting a
/// bit makes its mask read back set, clearing makes it read back clear,
/// and bits outside the written mask keep their value.
proof fn lemma_bit_masks(s: u8, m: u8, m2: u8)
    by (bit_vector)
    ensures
        (s | m) & m == m,
        m != 0 ==> (s & !m) & m != m,
        m & m2 == 0 ==> (s | m) & m2 == s & m2,
        m & m2 == 0 ==> (s & !m) & m2 == s & m2,
{
}

/// The eight flag masks are nonzero and pairwise disjoint single bits;
/// the solver does not evaluate bitwise operators on literals by itself,
/// so these constant facts are discharged once here.
pub proof fn lemma_flag_masks_disjoint()
    by (bit_vector)
    ensures
        CARRY != 0 && ZERO != 0 && INTERRUPT_DISABLE != 0 && DECIMAL != 0,
        BREAK != 0 && UNUSED != 0 && OVERFLOW != 0 && NEGATIVE != 0,
        ZERO & CARRY == 0 && OVERFLOW & CARRY == 0 && NEGATIVE & CARRY == 0,
        CARRY & ZERO == 0 && OVERFLOW & ZERO == 0 && NEGATIVE & ZERO == 0,
        CARRY & OVERFLOW == 0 && ZERO & OVERFLOW == 0 && NEGATIVE & OVERFLOW == 0,
        CARRY & NEGATIVE == 0 && ZERO & NEGATIVE == 0 && OVERFLOW & NEGATIVE == 0,
        ZERO & INTERRUPT_DISABLE == 0 && NEGATIVE & INTERRUPT_DISABLE == 0,
        ZERO & DECIMAL == 0 && NEGATIVE & DECIMAL == 0,
        ZERO & BREAK == 0 && NEGATIVE & BREAK == 0,
        ZERO & UNUSED == 0 && NEGATIVE & UNUSED == 0,
        CARRY & INTERRUPT_DISABLE == 0 && CARRY & DECIMAL == 0,
        CARRY & BREAK == 0 && CARRY & UNUSED == 0,
        OVERFLOW & INTERRUPT_DISABLE == 0 && OVERFLOW & DECIMAL == 0,
        OVERFLOW & BREAK == 0 && OVERFLOW & UNUSED == 0,
{
}

/// Reading a flag after `set_bit`: the written flag reads back as `on`,
/// and any mask disjoint from the written one is untouched.
pub proof fn lemma_set_bit_effect(s: u8, m: u8, on: bool, m2: u8)
    requires
        m != 0,
    ensures
        has_flag(set_bit(s, m, on), m) == on,
        m & m2 == 0 ==> set_bit(s, m, on) & m2 == s & m2,
{
    lemma_bit_masks(s, m, m2);
}

} // verus!
