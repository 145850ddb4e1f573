//! The rules by which an instruction's operand bytes become an effective
//! memory address (or, for `Immediate`, the address of the literal operand
//! byte itself).

use vstd::prelude::*;

verus! {

/// CPU addressing modes.
#[derive(Clone, Copy, Debug, PartialEq, Eq, Structural)]
pub enum AddressingMode {
    /// A full 16-bit little-endian address follows the opcode.
    Absolute,
    /// A single-byte address into the zero page (high byte always 0).
    ZeroPage,
    /// Zero-page address plus X, wrapping within the zero page.
    ZeroPageX,
    /// Zero-page address plus Y, wrapping within the zero page.
    ZeroPageY,
    /// Absolute address plus X with 16-bit wraparound.
    AbsoluteX,
    /// Absolute address plus Y with 16-bit wraparound.
    AbsoluteY,
    /// The operand byte itself is the value; the mode resolves to the
    /// operand's own address and callers read through the bus as usual.
    Immediate,
    /// No operand: the instruction acts on registers only. Conditional
    /// branches also carry this mode and read their own relative offset.
    Implicit,
    /// A 16-bit pointer follows the opcode and is dereferenced, with the
    /// documented page-boundary quirk (used by JMP only).
    Indirect,
    /// "(zp,X)": the operand byte plus X names a zero-page pointer whose
    /// two bytes, both read within the zero page, form the address.
    IndexedIndirect,
    /// "(zp),Y": the operand byte names a zero-page pointer whose two
    /// bytes form a base address, then Y is added with 16-bit wraparound.
    IndirectIndexed,
}

} // verus!
