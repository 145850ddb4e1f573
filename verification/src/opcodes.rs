//! The fixed 256-entry instruction metadata table: for each opcode byte,
//! its addressing mode and total instruction length in bytes (opcode
//! included), plus the mnemonic used by the execution tracer. A byte with
//! no entry is an unrecognized opcode and fatal to execute.

use vstd::prelude::*;

use crate::addressing_mode::AddressingMode;

verus! {

/// Static metadata of one opcode.
#[derive(Clone, Copy, Debug, PartialEq, Eq, Structural)]
pub struct OpInfo {
    pub mode: AddressingMode,
    /// Total instruction byte length, opcode byte included.
    pub length: u8,
}

/// The instruction table, grouped by addressing mode and length.
pub open spec fn spec_decode(code: u8) -> Option<OpInfo> {
    match code {
        // Register-only instructions, accumulator-form shifts and rotates,
        // stack and return instructions, BRK, and the one-byte NOP forms.
        0xAA | 0xA8 | 0xBA | 0x8A | 0x9A | 0x98 | 0x48 | 0x08 | 0x68 | 0x28 | 0xCA | 0x88
            | 0xE8 | 0xC8 | 0x0A | 0x4A | 0x2A | 0x6A | 0x18 | 0xD8 | 0x58 | 0xB8 | 0x38 | 0xF8
            | 0x78 | 0x60 | 0x00 | 0x40 | 0xEA | 0x1A | 0x3A | 0x5A | 0x7A | 0xDA | 0xFA => Some(
            OpInfo { mode: AddressingMode::Implicit, length: 1 },
        ),
        // Conditional branches: one signed relative offset byte.
        0x90 | 0xB0 | 0xF0 | 0x30 | 0xD0 | 0x10 | 0x50 | 0x70 => Some(
            OpInfo { mode: AddressingMode::Implicit, length: 2 },
        ),
        // Immediate operands.
        0xA9 | 0xA2 | 0xA0 | 0x69 | 0xE9 | 0x29 | 0x49 | 0x09 | 0xC9 | 0xE0 | 0xC0 | 0x4B
            | 0x0B | 0x2B | 0x8B | 0xEB | 0x80 | 0x82 | 0x89 | 0xC2 | 0xE2 => Some(
            OpInfo { mode: AddressingMode::Immediate, length: 2 },
        ),
        // Zero page.
        0xA5 | 0xA6 | 0xA4 | 0x85 | 0x86 | 0x84 | 0xC6 | 0xE6 | 0x65 | 0xE5 | 0x25 | 0x45
            | 0x05 | 0x06 | 0x46 | 0x26 | 0x66 | 0xC5 | 0xE4 | 0xC4 | 0x24 | 0xC7 | 0xE7 | 0xA7
            | 0x27 | 0x67 | 0x87 | 0x07 | 0x47 | 0x04 | 0x44 | 0x64 => Some(
            OpInfo { mode: AddressingMode::ZeroPage, length: 2 },
        ),
        // Zero page indexed by X.
        0xB5 | 0xB4 | 0x95 | 0x94 | 0xD6 | 0xF6 | 0x75 | 0xF5 | 0x35 | 0x55 | 0x15 | 0x16
            | 0x56 | 0x36 | 0x76 | 0xD5 | 0xD7 | 0xF7 | 0x37 | 0x77 | 0x17 | 0x57 | 0x14 | 0x34
            | 0x54 | 0x74 | 0xD4 | 0xF4 => Some(
            OpInfo { mode: AddressingMode::ZeroPageX, length: 2 },
        ),
        // Zero page indexed by Y.
        0xB6 | 0x96 | 0xB7 | 0x97 => Some(OpInfo { mode: AddressingMode::ZeroPageY, length: 2 }),
        // Absolute.
        0xAD | 0xAE | 0xAC | 0x8D | 0x8E | 0x8C | 0xCE | 0xEE | 0x6D | 0xED | 0x2D | 0x4D
            | 0x0D | 0x0E | 0x4E | 0x2E | 0x6E | 0xCD | 0xEC | 0xCC | 0x4C | 0x20 | 0x2C | 0xCF
            | 0xEF | 0xAF | 0x2F | 0x6F | 0x8F | 0x0F | 0x4F | 0x0C => Some(
            OpInfo { mode: AddressingMode::Absolute, length: 3 },
        ),
        // Absolute indexed by X.
        0xBD | 0xBC | 0x9D | 0xDE | 0xFE | 0x7D | 0xFD | 0x3D | 0x5D | 0x1D | 0x1E | 0x5E
            | 0x3E | 0x7E | 0xDD | 0xDF | 0xFF | 0x3F | 0x7F | 0x1F | 0x5F | 0x1C | 0x3C | 0x5C
            | 0x7C | 0xDC | 0xFC => Some(OpInfo { mode: AddressingMode::AbsoluteX, length: 3 }),
        // Absolute indexed by Y.
        0xB9 | 0xBE | 0x99 | 0x79 | 0xF9 | 0x39 | 0x59 | 0x19 | 0xD9 | 0xDB | 0xFB | 0xBB
            | 0xBF | 0x3B | 0x7B | 0x1B | 0x5B => Some(
            OpInfo { mode: AddressingMode::AbsoluteY, length: 3 },
        ),
        // Indirect (JMP only).
        0x6C => Some(OpInfo { mode: AddressingMode::Indirect, length: 3 }),
        // Indexed indirect "(zp,X)".
        0xA1 | 0x81 | 0x61 | 0xE1 | 0x21 | 0x41 | 0x01 | 0xC1 | 0xC3 | 0xE3 | 0xA3 | 0x23
            | 0x63 | 0x83 | 0x03 | 0x43 => Some(
            OpInfo { mode: AddressingMode::IndexedIndirect, length: 2 },
        ),
        // Indirect indexed "(zp),Y".
        0xB1 | 0x91 | 0x71 | 0xF1 | 0x31 | 0x51 | 0x11 | 0xD1 | 0xD3 | 0xF3 | 0xB3 | 0x33
            | 0x73 | 0x13 | 0x53 => Some(
            OpInfo { mode: AddressingMode::IndirectIndexed, length: 2 },
        ),
        _ => None,
    }
}

/// Looks an opcode up in the instruction table.
pub fn decode(code: u8) -> (r: Option<OpInfo>)
    ensures
        r == spec_decode(code),
{
    match code {
        0xAA | 0xA8 | 0xBA | 0x8A | 0x9A | 0x98 | 0x48 | 0x08 | 0x68 | 0x28 | 0xCA | 0x88
            | 0xE8 | 0xC8 | 0x0A | 0x4A | 0x2A | 0x6A | 0x18 | 0xD8 | 0x58 | 0xB8 | 0x38 | 0xF8
            | 0x78 | 0x60 | 0x00 | 0x40 | 0xEA | 0x1A | 0x3A | 0x5A | 0x7A | 0xDA | 0xFA => Some(
            OpInfo { mode: AddressingMode::Implicit, length: 1 },
        ),
        0x90 | 0xB0 | 0xF0 | 0x30 | 0xD0 | 0x10 | 0x50 | 0x70 => Some(
            OpInfo { mode: AddressingMode::Implicit, length: 2 },
        ),
        0xA9 | 0xA2 | 0xA0 | 0x69 | 0xE9 | 0x29 | 0x49 | 0x09 | 0xC9 | 0xE0 | 0xC0 | 0x4B
            | 0x0B | 0x2B | 0x8B | 0xEB | 0x80 | 0x82 | 0x89 | 0xC2 | 0xE2 => Some(
            OpInfo { mode: AddressingMode::Immediate, length: 2 },
        ),
        0xA5 | 0xA6 | 0xA4 | 0x85 | 0x86 | 0x84 | 0xC6 | 0xE6 | 0x65 | 0xE5 | 0x25 | 0x45
            | 0x05 | 0x06 | 0x46 | 0x26 | 0x66 | 0xC5 | 0xE4 | 0xC4 | 0x24 | 0xC7 | 0xE7 | 0xA7
            | 0x27 | 0x67 | 0x87 | 0x07 | 0x47 | 0x04 | 0x44 | 0x64 => Some(
            OpInfo { mode: AddressingMode::ZeroPage, length: 2 },
        ),
        0xB5 | 0xB4 | 0x95 | 0x94 | 0xD6 | 0xF6 | 0x75 | 0xF5 | 0x35 | 0x55 | 0x15 | 0x16
            | 0x56 | 0x36 | 0x76 | 0xD5 | 0xD7 | 0xF7 | 0x37 | 0x77 | 0x17 | 0x57 | 0x14 | 0x34
            | 0x54 | 0x74 | 0xD4 | 0xF4 => Some(
            OpInfo { mode: AddressingMode::ZeroPageX, length: 2 },
        ),
        0xB6 | 0x96 | 0xB7 | 0x97 => Some(OpInfo { mode: AddressingMode::ZeroPageY, length: 2 }),
        0xAD | 0xAE | 0xAC | 0x8D | 0x8E | 0x8C | 0xCE | 0xEE | 0x6D | 0xED | 0x2D | 0x4D
            | 0x0D | 0x0E | 0x4E | 0x2E | 0x6E | 0xCD | 0xEC | 0xCC | 0x4C | 0x20 | 0x2C | 0xCF
            | 0xEF | 0xAF | 0x2F | 0x6F | 0x8F | 0x0F | 0x4F | 0x0C => Some(
            OpInfo { mode: AddressingMode::Absolute, length: 3 },
        ),
        0xBD | 0xBC | 0x9D | 0xDE | 0xFE | 0x7D | 0xFD | 0x3D | 0x5D | 0x1D | 0x1E | 0x5E
            | 0x3E | 0x7E | 0xDD | 0xDF | 0xFF | 0x3F | 0x7F | 0x1F | 0x5F | 0x1C | 0x3C | 0x5C
            | 0x7C | 0xDC | 0xFC => Some(OpInfo { mode: AddressingMode::AbsoluteX, length: 3 }),
        0xB9 | 0xBE | 0x99 | 0x79 | 0xF9 | 0x39 | 0x59 | 0x19 | 0xD9 | 0xDB | 0xFB | 0xBB
            | 0xBF | 0x3B | 0x7B | 0x1B | 0x5B => Some(
            OpInfo { mode: AddressingMode::AbsoluteY, length: 3 },
        ),
        0x6C => Some(OpInfo { mode: AddressingMode::Indirect, length: 3 }),
        0xA1 | 0x81 | 0x61 | 0xE1 | 0x21 | 0x41 | 0x01 | 0xC1 | 0xC3 | 0xE3 | 0xA3 | 0x23
            | 0x63 | 0x83 | 0x03 | 0x43 => Some(
            OpInfo { mode: AddressingMode::IndexedIndirect, length: 2 },
        ),
        0xB1 | 0x91 | 0x71 | 0xF1 | 0x31 | 0x51 | 0x11 | 0xD1 | 0xD3 | 0xF3 | 0xB3 | 0x33
            | 0x73 | 0x13 | 0x53 => Some(
            OpInfo { mode: AddressingMode::IndirectIndexed, length: 2 },
        ),
        _ => None,
    }
}

/// The tracer's mnemonic for each opcode, as a character sequence;
/// undocumented instructions carry a leading star and bytes outside the
/// table render as question marks.
pub open spec fn spec_mnemonic(code: u8) -> Seq<char> {
    match code {
        0xA9 | 0xA5 | 0xB5 | 0xAD | 0xBD | 0xB9 | 0xA1 | 0xB1 => seq!['L', 'D', 'A'],
        0xA2 | 0xA6 | 0xB6 | 0xAE | 0xBE => seq!['L', 'D', 'X'],
        0xA0 | 0xA4 | 0xB4 | 0xAC | 0xBC => seq!['L', 'D', 'Y'],
        0x85 | 0x95 | 0x8D | 0x9D | 0x99 | 0x81 | 0x91 => seq!['S', 'T', 'A'],
        0x86 | 0x96 | 0x8E => seq!['S', 'T', 'X'],
        0x84 | 0x94 | 0x8C => seq!['S', 'T', 'Y'],
        0xAA => seq!['T', 'A', 'X'],
        0xA8 => seq!['T', 'A', 'Y'],
        0xBA => seq!['T', 'S', 'X'],
        0x8A => seq!['T', 'X', 'A'],
        0x9A => seq!['T', 'X', 'S'],
        0x98 => seq!['T', 'Y', 'A'],
        0x48 => seq!['P', 'H', 'A'],
        0x08 => seq!['P', 'H', 'P'],
        0x68 => seq!['P', 'L', 'A'],
        0x28 => seq!['P', 'L', 'P'],
        0xC6 | 0xD6 | 0xCE | 0xDE => seq!['D', 'E', 'C'],
        0xCA => seq!['D', 'E', 'X'],
        0x88 => seq!['D', 'E', 'Y'],
        0xE6 | 0xF6 | 0xEE | 0xFE => seq!['I', 'N', 'C'],
        0xE8 => seq!['I', 'N', 'X'],
        0xC8 => seq!['I', 'N', 'Y'],
        0x69 | 0x65 | 0x75 | 0x6D | 0x7D | 0x79 | 0x61 | 0x71 => seq!['A', 'D', 'C'],
        0xE9 | 0xE5 | 0xF5 | 0xED | 0xFD | 0xF9 | 0xE1 | 0xF1 => seq!['S', 'B', 'C'],
        0x29 | 0x25 | 0x35 | 0x2D | 0x3D | 0x39 | 0x21 | 0x31 => seq!['A', 'N', 'D'],
        0x49 | 0x45 | 0x55 | 0x4D | 0x5D | 0x59 | 0x41 | 0x51 => seq!['E', 'O', 'R'],
        0x09 | 0x05 | 0x15 | 0x0D | 0x1D | 0x19 | 0x01 | 0x11 => seq!['O', 'R', 'A'],
        0x0A | 0x06 | 0x16 | 0x0E | 0x1E => seq!['A', 'S', 'L'],
        0x4A | 0x46 | 0x56 | 0x4E | 0x5E => seq!['L', 'S', 'R'],
        0x2A | 0x26 | 0x36 | 0x2E | 0x3E => seq!['R', 'O', 'L'],
        0x6A | 0x66 | 0x76 | 0x6E | 0x7E => seq!['R', 'O', 'R'],
        0x18 => seq!['C', 'L', 'C'],
        0xD8 => seq!['C', 'L', 'D'],
        0x58 => seq!['C', 'L', 'I'],
        0xB8 => seq!['C', 'L', 'V'],
        0x38 => seq!['S', 'E', 'C'],
        0xF8 => seq!['S', 'E', 'D'],
        0x78 => seq!['S', 'E', 'I'],
        0xC9 | 0xC5 | 0xD5 | 0xCD | 0xDD | 0xD9 | 0xC1 | 0xD1 => seq!['C', 'M', 'P'],
        0xE0 | 0xE4 | 0xEC => seq!['C', 'P', 'X'],
        0xC0 | 0xC4 | 0xCC => seq!['C', 'P', 'Y'],
        0x90 => seq!['B', 'C', 'C'],
        0xB0 => seq!['B', 'C', 'S'],
        0xF0 => seq!['B', 'E', 'Q'],
        0x30 => seq!['B', 'M', 'I'],
        0xD0 => seq!['B', 'N', 'E'],
        0x10 => seq!['B', 'P', 'L'],
        0x50 => seq!['B', 'V', 'C'],
        0x70 => seq!['B', 'V', 'S'],
        0x4C | 0x6C => seq!['J', 'M', 'P'],
        0x20 => seq!['J', 'S', 'R'],
        0x60 => seq!['R', 'T', 'S'],
        0x00 => seq!['B', 'R', 'K'],
        0x40 => seq!['R', 'T', 'I'],
        0x24 | 0x2C => seq!['B', 'I', 'T'],
        0xEA => seq!['N', 'O', 'P'],
        0x4B => seq!['*', 'A', 'L', 'R'],
        0x0B | 0x2B => seq!['*', 'A', 'N', 'C'],
        0x8B => seq!['*', 'A', 'N', 'E'],
        0xC7 | 0xD7 | 0xCF | 0xDF | 0xDB | 0xC3 | 0xD3 => seq!['*', 'D', 'C', 'P'],
        0xE7 | 0xF7 | 0xEF | 0xFF | 0xFB | 0xE3 | 0xF3 => seq!['*', 'I', 'S', 'B'],
        0xBB => seq!['*', 'L', 'A', 'S'],
        0xA7 | 0xB7 | 0xAF | 0xBF | 0xA3 | 0xB3 => seq!['*', 'L', 'A', 'X'],
        0x27 | 0x37 | 0x2F | 0x3F | 0x3B | 0x23 | 0x33 => seq!['*', 'R', 'L', 'A'],
        0x67 | 0x77 | 0x6F | 0x7F | 0x7B | 0x63 | 0x73 => seq!['*', 'R', 'R', 'A'],
        0x87 | 0x97 | 0x8F | 0x83 => seq!['*', 'S', 'A', 'X'],
        0x07 | 0x17 | 0x0F | 0x1F | 0x1B | 0x03 | 0x13 => seq!['*', 'S', 'L', 'O'],
        0x47 | 0x57 | 0x4F | 0x5F | 0x5B | 0x43 | 0x53 => seq!['*', 'S', 'R', 'E'],
        0xEB => seq!['*', 'S', 'B', 'C'],
        0x1A | 0x3A | 0x5A | 0x7A | 0xDA | 0xFA | 0x80 | 0x82 | 0x89 | 0xC2 | 0xE2
            | 0x04 | 0x44 | 0x64 | 0x14 | 0x34 | 0x54 | 0x74 | 0xD4 | 0xF4 | 0x0C | 0x1C
            | 0x3C | 0x5C | 0x7C | 0xDC | 0xFC => seq!['*', 'N', 'O', 'P'],
        _ => seq!['?', '?', '?'],
    }
}

/// The undocumented opcodes carry a four-character starred mnemonic;
/// everything else (question marks included) renders in three.
pub fn mnemonic_starred(code: u8) -> (r: bool)
    ensures
        r == (spec_mnemonic(code).len() == 4),
{
    match code {
        0x03 | 0x04 | 0x07 | 0x0B | 0x0C | 0x0F | 0x13 | 0x14 | 0x17 | 0x1A | 0x1B
            | 0x1C | 0x1F | 0x23 | 0x27 | 0x2B | 0x2F | 0x33 | 0x34 | 0x37 | 0x3A | 0x3B
            | 0x3C | 0x3F | 0x43 | 0x44 | 0x47 | 0x4B | 0x4F | 0x53 | 0x54 | 0x57 | 0x5A
            | 0x5B | 0x5C | 0x5F | 0x63 | 0x64 | 0x67 | 0x6F | 0x73 | 0x74 | 0x77 | 0x7A
            | 0x7B | 0x7C | 0x7F | 0x80 | 0x82 | 0x83 | 0x87 | 0x89 | 0x8B | 0x8F | 0x97
            | 0xA3 | 0xA7 | 0xAF | 0xB3 | 0xB7 | 0xBB | 0xBF | 0xC2 | 0xC3 | 0xC7 | 0xCF
            | 0xD3 | 0xD4 | 0xD7 | 0xDA | 0xDB | 0xDC | 0xDF | 0xE2 | 0xE3 | 0xE7 | 0xEB
            | 0xEF | 0xF3 | 0xF4 | 0xF7 | 0xFA | 0xFB | 0xFC | 0xFF => true,
        _ => false,
    }
}

/// Looks the mnemonic up as a string slice.
#[verifier::rlimit(60)]
pub fn mnemonic(code: u8) -> (r: &'static str)
    ensures
        r@ == spec_mnemonic(code),
{
    proof {
        reveal_strlit("LDA");
        reveal_strlit("LDX");
        reveal_strlit("LDY");
        reveal_strlit("STA");
        reveal_strlit("STX");
        reveal_strlit("STY");
        reveal_strlit("TAX");
        reveal_strlit("TAY");
        reveal_strlit("TSX");
        reveal_strlit("TXA");
        reveal_strlit("TXS");
        reveal_strlit("TYA");
        reveal_strlit("PHA");
        reveal_strlit("PHP");
        reveal_strlit("PLA");
        reveal_strlit("PLP");
        reveal_strlit("DEC");
        reveal_strlit("DEX");
        reveal_strlit("DEY");
        reveal_strlit("INC");
        reveal_strlit("INX");
        reveal_strlit("INY");
        reveal_strlit("ADC");
        reveal_strlit("SBC");
        reveal_strlit("AND");
        reveal_strlit("EOR");
        reveal_strlit("ORA");
        reveal_strlit("ASL");
        reveal_strlit("LSR");
        reveal_strlit("ROL");
        reveal_strlit("ROR");
        reveal_strlit("CLC");
        reveal_strlit("CLD");
        reveal_strlit("CLI");
        reveal_strlit("CLV");
        reveal_strlit("SEC");
        reveal_strlit("SED");
        reveal_strlit("SEI");
        reveal_strlit("CMP");
        reveal_strlit("CPX");
        reveal_strlit("CPY");
        reveal_strlit("BCC");
        reveal_strlit("BCS");
        reveal_strlit("BEQ");
        reveal_strlit("BMI");
        reveal_strlit("BNE");
        reveal_strlit("BPL");
        reveal_strlit("BVC");
        reveal_strlit("BVS");
        reveal_strlit("JMP");
        reveal_strlit("JSR");
        reveal_strlit("RTS");
        reveal_strlit("BRK");
        reveal_strlit("RTI");
        reveal_strlit("BIT");
        reveal_strlit("NOP");
        reveal_strlit("*ALR");
        reveal_strlit("*ANC");
        reveal_strlit("*ANE");
        reveal_strlit("*DCP");
        reveal_strlit("*ISB");
        reveal_strlit("*LAS");
        reveal_strlit("*LAX");
        reveal_strlit("*RLA");
        reveal_strlit("*RRA");
        reveal_strlit("*SAX");
        reveal_strlit("*SLO");
        reveal_strlit("*SRE");
        reveal_strlit("*SBC");
        reveal_strlit("*NOP");
        reveal_strlit("???");
    }
    let r: &'static str = match code {
        0xA9 | 0xA5 | 0xB5 | 0xAD | 0xBD | 0xB9 | 0xA1 | 0xB1 => "LDA",
        0xA2 | 0xA6 | 0xB6 | 0xAE | 0xBE => "LDX",
        0xA0 | 0xA4 | 0xB4 | 0xAC | 0xBC => "LDY",
        0x85 | 0x95 | 0x8D | 0x9D | 0x99 | 0x81 | 0x91 => "STA",
        0x86 | 0x96 | 0x8E => "STX",
        0x84 | 0x94 | 0x8C => "STY",
        0xAA => "TAX",
        0xA8 => "TAY",
        0xBA => "TSX",
        0x8A => "TXA",
        0x9A => "TXS",
        0x98 => "TYA",
        0x48 => "PHA",
        0x08 => "PHP",
        0x68 => "PLA",
        0x28 => "PLP",
        0xC6 | 0xD6 | 0xCE | 0xDE => "DEC",
        0xCA => "DEX",
        0x88 => "DEY",
        0xE6 | 0xF6 | 0xEE | 0xFE => "INC",
        0xE8 => "INX",
        0xC8 => "INY",
        0x69 | 0x65 | 0x75 | 0x6D | 0x7D | 0x79 | 0x61 | 0x71 => "ADC",
        0xE9 | 0xE5 | 0xF5 | 0xED | 0xFD | 0xF9 | 0xE1 | 0xF1 => "SBC",
        0x29 | 0x25 | 0x35 | 0x2D | 0x3D | 0x39 | 0x21 | 0x31 => "AND",
        0x49 | 0x45 | 0x55 | 0x4D | 0x5D | 0x59 | 0x41 | 0x51 => "EOR",
        0x09 | 0x05 | 0x15 | 0x0D | 0x1D | 0x19 | 0x01 | 0x11 => "ORA",
        0x0A | 0x06 | 0x16 | 0x0E | 0x1E => "ASL",
        0x4A | 0x46 | 0x56 | 0x4E | 0x5E => "LSR",
        0x2A | 0x26 | 0x36 | 0x2E | 0x3E => "ROL",
        0x6A | 0x66 | 0x76 | 0x6E | 0x7E => "ROR",
        0x18 => "CLC",
        0xD8 => "CLD",
        0x58 => "CLI",
        0xB8 => "CLV",
        0x38 => "SEC",
        0xF8 => "SED",
        0x78 => "SEI",
        0xC9 | 0xC5 | 0xD5 | 0xCD | 0xDD | 0xD9 | 0xC1 | 0xD1 => "CMP",
        0xE0 | 0xE4 | 0xEC => "CPX",
        0xC0 | 0xC4 | 0xCC => "CPY",
        0x90 => "BCC",
        0xB0 => "BCS",
        0xF0 => "BEQ",
        0x30 => "BMI",
        0xD0 => "BNE",
        0x10 => "BPL",
        0x50 => "BVC",
        0x70 => "BVS",
        0x4C | 0x6C => "JMP",
        0x20 => "JSR",
        0x60 => "RTS",
        0x00 => "BRK",
        0x40 => "RTI",
        0x24 | 0x2C => "BIT",
        0xEA => "NOP",
        0x4B => "*ALR",
        0x0B | 0x2B => "*ANC",
        0x8B => "*ANE",
        0xC7 | 0xD7 | 0xCF | 0xDF | 0xDB | 0xC3 | 0xD3 => "*DCP",
        0xE7 | 0xF7 | 0xEF | 0xFF | 0xFB | 0xE3 | 0xF3 => "*ISB",
        0xBB => "*LAS",
        0xA7 | 0xB7 | 0xAF | 0xBF | 0xA3 | 0xB3 => "*LAX",
        0x27 | 0x37 | 0x2F | 0x3F | 0x3B | 0x23 | 0x33 => "*RLA",
        0x67 | 0x77 | 0x6F | 0x7F | 0x7B | 0x63 | 0x73 => "*RRA",
        0x87 | 0x97 | 0x8F | 0x83 => "*SAX",
        0x07 | 0x17 | 0x0F | 0x1F | 0x1B | 0x03 | 0x13 => "*SLO",
        0x47 | 0x57 | 0x4F | 0x5F | 0x5B | 0x43 | 0x53 => "*SRE",
        0xEB => "*SBC",
        0x1A | 0x3A | 0x5A | 0x7A | 0xDA | 0xFA | 0x80 | 0x82 | 0x89 | 0xC2 | 0xE2 | 0x04
            | 0x44 | 0x64 | 0x14 | 0x34 | 0x54 | 0x74 | 0xD4 | 0xF4 | 0x0C | 0x1C | 0x3C | 0x5C
            | 0x7C | 0xDC | 0xFC => "*NOP",
        _ => "???",
    };
    assert(r@ =~= spec_mnemonic(code));
    r
}

} // verus!
