//! The processor's register file: accumulator, the X and Y indexes, the
//! stack pointer (always offset against page 0x0100), the program counter
//! and the 8-bit status flag set.

use vstd::prelude::*;

use crate::status_flags::{
    has_flag, lemma_set_bit_effect, set_bit, with_nz, CARRY, NEGATIVE, OVERFLOW, ZERO,
};

verus! {

/// Mutable state of the processor.
#[derive(Clone, Copy, Debug, PartialEq, Eq, Structural)]
pub struct Registers {
    /// Accumulator.
    pub a: u8,
    /// X index.
    pub x: u8,
    /// Y index.
    pub y: u8,
    /// Status register, named P: NV-B DIZC.
    pub status: u8,
    /// Stack pointer, offset against the fixed page 0x0100-0x01FF.
    pub stack_pointer: u8,
    /// Program counter.
    pub program_counter: u16,
}

/// Carry-in contributed by the status register to an addition: 1 when the
/// Carry flag is set, else 0.
pub open spec fn carry_in(status: u8) -> int {
    if has_flag(status, CARRY) {
        1
    } else {
        0
    }
}

/// Accumulator value after add-with-carry: the 16-bit-wide sum truncated
/// to 8 bits.
pub open spec fn add_result(a: u8, data: u8, status: u8) -> u8 {
    ((a + data + carry_in(status)) % 256) as u8
}

/// Carry-out of add-with-carry: the widened sum exceeded 0xFF.
pub open spec fn add_carry_out(a: u8, data: u8, status: u8) -> bool {
    a + data + carry_in(status) > 255
}

/// Signed-overflow rule of add-with-carry: operand and result have
/// opposite signs and the old accumulator and result have opposite signs.
pub open spec fn add_overflow_out(a: u8, data: u8, status: u8) -> bool {
    (data ^ add_result(a, data, status)) & (a ^ add_result(a, data, status)) & 0x80 != 0
}

/// The whole status register after add-with-carry: Carry and Overflow
/// written first, then the zero/negative update for the new accumulator.
pub open spec fn add_status(a: u8, data: u8, status: u8) -> u8 {
    with_nz(
        set_bit(
            set_bit(status, CARRY, add_carry_out(a, data, status)),
            OVERFLOW,
            add_overflow_out(a, data, status),
        ),
        add_result(a, data, status),
    )
}

impl Registers {
    /// Power-on register file: A, X and Y zero, status 0x24 (Interrupt
    /// disable and Unused set - the same value `reset` restores; the
    /// alternative 0x34 value with Break pre-set is deliberately not
    /// used), stack pointer 0xFD, program counter 0.
    pub fn new() -> (r: Registers)
        ensures
            r == (Registers {
                a: 0,
                x: 0,
                y: 0,
                status: 0x24,
                stack_pointer: 0xFD,
                program_counter: 0,
            }),
    {
        Registers { a: 0x00, x: 0x00, y: 0x00, status: 0x24, stack_pointer: 0xFD, program_counter: 0x0000 }
    }

    /// Reset state: A, X and Y cleared, status 0x24 (Interrupt disable and
    /// Unused set; the alternative power-up value 0x34 with Break pre-set
    /// is deliberately not used after reset), stack pointer 0xFD, and the
    /// program counter loaded from the reset vector by the caller.
    pub fn reset(&mut self, program_counter: u16)
        ensures
            *final(self) == (Registers {
                a: 0,
                x: 0,
                y: 0,
                status: 0x24,
                stack_pointer: 0xFD,
                program_counter: program_counter,
            }),
    {
        self.a = 0x00;
        self.x = 0x00;
        self.y = 0x00;
        self.status = 0x24;
        self.stack_pointer = 0xFD;
        self.program_counter = program_counter;
    }

    /// Whether the flag named by `mask` is set.
    pub fn get_flag(&self, mask: u8) -> (b: bool)
        ensures
            b == has_flag(self.status, mask),
    {
        self.status & mask == mask
    }

    /// Forces the flag named by `mask` to `on`, leaving every other
    /// register and status bit alone.
    pub fn set_flag(&mut self, mask: u8, on: bool)
        ensures
            *final(self) == (Registers { status: set_bit(old(self).status, mask, on), ..*old(self) }),
    {
        if on {
            self.status = self.status | mask;
        } else {
            self.status = self.status & !mask;
        }
    }

    /// Updates Zero and Negative for `result`: Z tracks `result == 0`,
    /// N tracks bit 7.
    pub fn set_nz_flags(&mut self, result: u8)
        ensures
            *final(self) == (Registers { status: with_nz(old(self).status, result), ..*old(self) }),
    {
        self.set_flag(ZERO, result == 0);
        self.set_flag(NEGATIVE, result & 0x80 == 0x80);
    }

    /// Add-with-carry into the accumulator: widens both operands to 16
    /// bits, adds the incoming Carry flag, truncates back to 8 bits, and
    /// rewrites Carry, Overflow, Zero and Negative.
    pub fn add_to_a(&mut self, data: u8)
        ensures
            final(self).a == add_result(old(self).a, data, old(self).status),
            final(self).status == add_status(old(self).a, data, old(self).status),
            *final(self) == (Registers {
                a: add_result(old(self).a, data, old(self).status),
                status: add_status(old(self).a, data, old(self).status),
                ..*old(self)
            }),
    {
        let a = self.a as u16;
        let sum: u16 = a + (data as u16) + (if self.get_flag(CARRY) { 1u16 } else { 0u16 });
        let result = (sum & 0xFF) as u8;
        assert(sum & 0xFF == sum % 256) by (bit_vector);

        self.set_flag(CARRY, sum > 0xFF);
        self.set_flag(OVERFLOW, (data ^ result) & (self.a ^ result) & 0x80 != 0);

        self.a = result;
        self.set_nz_flags(result);
    }
}

/// Addition flag law: for every 8-bit accumulator `a`, operand `data` and
/// incoming status, the add-with-carry status has Carry exactly when the
/// widened sum exceeds 0xFF, Overflow per the same-sign rule, and Zero and
/// Negative tracking the truncated result.
pub proof fn lemma_addition_flags(a: u8, data: u8, status: u8)
    ensures
        add_result(a, data, status) == (a + data + carry_in(status)) % 256,
        has_flag(add_status(a, data, status), CARRY) == (a + data + carry_in(status) > 255),
        has_flag(add_status(a, data, status), OVERFLOW) == ((data ^ add_result(a, data, status))
            & (a ^ add_result(a, data, status)) & 0x80 != 0),
        has_flag(add_status(a, data, status), ZERO) == (add_result(a, data, status) == 0),
        has_flag(add_status(a, data, status), NEGATIVE) == (add_result(a, data, status) & 0x80
            == 0x80),
{
    let r = add_result(a, data, status);
    let s1 = set_bit(status, CARRY, add_carry_out(a, data, status));
    let s2 = set_bit(s1, OVERFLOW, add_overflow_out(a, data, status));
    let s3 = set_bit(s2, ZERO, r == 0);
    let s4 = set_bit(s3, NEGATIVE, r & 0x80 == 0x80);
    assert(add_status(a, data, status) == s4);
    crate::status_flags::lemma_flag_masks_disjoint();
    // Carry: written first, preserved by the three later single-bit writes.
    lemma_set_bit_effect(status, CARRY, add_carry_out(a, data, status), CARRY);
    lemma_set_bit_effect(s1, OVERFLOW, add_overflow_out(a, data, status), CARRY);
    lemma_set_bit_effect(s2, ZERO, r == 0, CARRY);
    lemma_set_bit_effect(s3, NEGATIVE, r & 0x80 == 0x80, CARRY);
    // Overflow: preserved by the Zero and Negative writes.
    lemma_set_bit_effect(s1, OVERFLOW, add_overflow_out(a, data, status), OVERFLOW);
    lemma_set_bit_effect(s2, ZERO, r == 0, OVERFLOW);
    lemma_set_bit_effect(s3, NEGATIVE, r & 0x80 == 0x80, OVERFLOW);
    // Zero: preserved by the Negative write.
    lemma_set_bit_effect(s2, ZERO, r == 0, ZERO);
    lemma_set_bit_effect(s3, NEGATIVE, r & 0x80 == 0x80, ZERO);
    // Negative: the last write.
    lemma_set_bit_effect(s3, NEGATIVE, r & 0x80 == 0x80, NEGATIVE);
}

} // verus!
