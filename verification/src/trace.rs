//! The execution tracer: renders one fixed-width text line per
//! instruction from read-only CPU state - hex address, raw instruction
//! bytes, mnemonic with operand syntax appropriate to its addressing
//! mode, and the register/flag snapshot. Used for debugging and
//! golden-trace comparison only; the core never depends on it.

use vstd::prelude::*;

use crate::addressing_mode::AddressingMode;
use crate::bus::in_ppu_window;
use crate::cpu::{machine_of, mread, mresolve, Machine, CPU};
use crate::fault::Fault;
use crate::opcodes::{decode, mnemonic, mnemonic_starred, spec_decode, spec_mnemonic, OpInfo};
use crate::registers::Registers;
use crate::word::{hi_byte, lo_byte, sign_ext, word, word_lo};
use vstd::wrapping::{u16_specs, u8_specs};
use vstd::string::StrSliceExecFns;
use vstd::string::StringExecFns;

verus! {

broadcast use vstd::std_specs::control_flow::group_control_flow_axioms;

/// Uppercase hex digit for a nibble value.
pub open spec fn hex_digit_char(n: u8) -> char {
    if n == 0 {
        '0'
    } else if n == 1 {
        '1'
    } else if n == 2 {
        '2'
    } else if n == 3 {
        '3'
    } else if n == 4 {
        '4'
    } else if n == 5 {
        '5'
    } else if n == 6 {
        '6'
    } else if n == 7 {
        '7'
    } else if n == 8 {
        '8'
    } else if n == 9 {
        '9'
    } else if n == 10 {
        'A'
    } else if n == 11 {
        'B'
    } else if n == 12 {
        'C'
    } else if n == 13 {
        'D'
    } else if n == 14 {
        'E'
    } else {
        'F'
    }
}

/// The two uppercase hex digits of a byte.
pub open spec fn spec_hex2(v: u8) -> Seq<char> {
    seq![hex_digit_char(v >> 4), hex_digit_char(v & 0x0F)]
}

/// The four uppercase hex digits of a 16-bit value.
pub open spec fn spec_hex4(v: u16) -> Seq<char> {
    spec_hex2(hi_byte(v)) + spec_hex2(lo_byte(v))
}

/// The 25-character register snapshot that ends every trace line:
/// accumulator, indexes, status and stack pointer, each as two hex
/// digits.
pub open spec fn spec_reg_tail(regs: Registers) -> Seq<char> {
    seq!['A', ':'] + spec_hex2(regs.a) + seq![' ', 'X', ':'] + spec_hex2(regs.x) + seq![
        ' ',
        'Y',
        ':',
    ] + spec_hex2(regs.y) + seq![' ', 'P', ':'] + spec_hex2(regs.status) + seq![
        ' ',
        'S',
        'P',
        ':',
    ] + spec_hex2(regs.stack_pointer)
}

/// Appends the uppercase hex digit of nibble `n`.
fn push_hex_digit(s: &mut String, n: u8)
    requires
        n < 16,
    ensures
        final(s)@ == old(s)@.push(hex_digit_char(n)),
{
    proof {
        reveal_strlit("0");
        reveal_strlit("1");
        reveal_strlit("2");
        reveal_strlit("3");
        reveal_strlit("4");
        reveal_strlit("5");
        reveal_strlit("6");
        reveal_strlit("7");
        reveal_strlit("8");
        reveal_strlit("9");
        reveal_strlit("A");
        reveal_strlit("B");
        reveal_strlit("C");
        reveal_strlit("D");
        reveal_strlit("E");
        reveal_strlit("F");
    }
    let digit: &str = if n == 0 {
        "0"
    } else if n == 1 {
        "1"
    } else if n == 2 {
        "2"
    } else if n == 3 {
        "3"
    } else if n == 4 {
        "4"
    } else if n == 5 {
        "5"
    } else if n == 6 {
        "6"
    } else if n == 7 {
        "7"
    } else if n == 8 {
        "8"
    } else if n == 9 {
        "9"
    } else if n == 10 {
        "A"
    } else if n == 11 {
        "B"
    } else if n == 12 {
        "C"
    } else if n == 13 {
        "D"
    } else if n == 14 {
        "E"
    } else {
        "F"
    };
    s.append(digit);
    assert(s@ =~= old(s)@.push(hex_digit_char(n)));
}

/// Appends a byte as two uppercase hex digits.
fn push_hex2(s: &mut String, v: u8)
    ensures
        final(s)@ == old(s)@ + spec_hex2(v),
{
    assert(v >> 4 < 16) by (bit_vector);
    assert(v & 0x0F < 16) by (bit_vector);
    push_hex_digit(s, v >> 4);
    push_hex_digit(s, v & 0x0F);
    assert(s@ =~= old(s)@ + spec_hex2(v));
}

/// Appends a 16-bit value as four uppercase hex digits.
fn push_hex4(s: &mut String, v: u16)
    ensures
        final(s)@ == old(s)@ + spec_hex4(v),
{
    let hi = crate::word::word_hi(v);
    let lo = word_lo(v);
    push_hex2(s, hi);
    push_hex2(s, lo);
    assert(s@ =~= old(s)@ + spec_hex4(v));
}

/// Appends the register snapshot tail.
fn push_reg_tail(s: &mut String, regs: &Registers)
    ensures
        final(s)@ == old(s)@ + spec_reg_tail(*regs),
{
    proof {
        reveal_strlit("A:");
        reveal_strlit(" X:");
        reveal_strlit(" Y:");
        reveal_strlit(" P:");
        reveal_strlit(" SP:");
    }
    s.append("A:");
    push_hex2(s, regs.a);
    s.append(" X:");
    push_hex2(s, regs.x);
    s.append(" Y:");
    push_hex2(s, regs.y);
    s.append(" P:");
    push_hex2(s, regs.status);
    s.append(" SP:");
    push_hex2(s, regs.stack_pointer);
    assert(s@ =~= old(s)@ + spec_reg_tail(*regs));
}

/// A run of `n` spaces (empty when `n` is not positive).
pub open spec fn spaces(n: int) -> Seq<char>
    decreases n,
{
    if n <= 0 {
        Seq::<char>::empty()
    } else {
        spaces(n - 1).push(' ')
    }
}

/// The operand-syntax column for one instruction, rendered per its
/// addressing mode: `mem_addr` and `stored` are the resolved effective
/// address and the byte behind it (0 for immediate and implicit modes).
pub open spec fn spec_operand_text(
    m: Machine,
    begin: u16,
    code: u8,
    info: OpInfo,
    mem_addr: u16,
    stored: u8,
) -> Seq<char> {
    let b1 = mread(m, u16_specs::wrapping_add(begin, 1));
    let b2 = mread(m, u16_specs::wrapping_add(u16_specs::wrapping_add(begin, 1), 1));
    let addr16 = word(b1, b2);
    if info.length == 2 {
        match info.mode {
            AddressingMode::Immediate => seq!['#', '$'] + spec_hex2(b1),
            AddressingMode::ZeroPage => seq!['$'] + spec_hex2(lo_byte(mem_addr)) + seq![
                ' ',
                '=',
                ' ',
            ] + spec_hex2(stored),
            AddressingMode::ZeroPageX => seq!['$'] + spec_hex2(b1) + seq![',', 'X', ' ', '@', ' ']
                + spec_hex2(lo_byte(mem_addr)) + seq![' ', '=', ' '] + spec_hex2(stored),
            AddressingMode::ZeroPageY => seq!['$'] + spec_hex2(b1) + seq![',', 'Y', ' ', '@', ' ']
                + spec_hex2(lo_byte(mem_addr)) + seq![' ', '=', ' '] + spec_hex2(stored),
            AddressingMode::IndexedIndirect => seq!['(', '$'] + spec_hex2(b1) + seq![
                ',',
                'X',
                ')',
                ' ',
                '@',
                ' ',
            ] + spec_hex2(u8_specs::wrapping_add(b1, m.regs.x)) + seq![' ', '=', ' ']
                + spec_hex4(mem_addr) + seq![' ', '=', ' '] + spec_hex2(stored),
            AddressingMode::IndirectIndexed => seq!['(', '$'] + spec_hex2(b1) + seq![
                ')',
                ',',
                'Y',
                ' ',
                '=',
                ' ',
            ] + spec_hex4(u16_specs::wrapping_sub(mem_addr, m.regs.y as u16)) + seq![
                ' ',
                '@',
                ' ',
            ] + spec_hex4(mem_addr) + seq![' ', '=', ' '] + spec_hex2(stored),
            AddressingMode::Implicit => seq!['$'] + spec_hex4(
                u16_specs::wrapping_add(u16_specs::wrapping_add(begin, 2), sign_ext(b1)),
            ),
            _ => Seq::<char>::empty(),
        }
    } else if info.length == 3 {
        match info.mode {
            AddressingMode::Indirect => seq!['(', '$'] + spec_hex4(addr16) + seq![
                ')',
                ' ',
                '=',
                ' ',
            ] + spec_hex4(mem_addr),
            AddressingMode::Absolute => if code == 0x4C || code == 0x20 {
                seq!['$'] + spec_hex4(addr16)
            } else {
                seq!['$'] + spec_hex4(mem_addr) + seq![' ', '=', ' '] + spec_hex2(stored)
            },
            AddressingMode::AbsoluteX => seq!['$'] + spec_hex4(addr16) + seq![
                ',',
                'X',
                ' ',
                '@',
                ' ',
            ] + spec_hex4(mem_addr) + seq![' ', '=', ' '] + spec_hex2(stored),
            AddressingMode::AbsoluteY => seq!['$'] + spec_hex4(addr16) + seq![
                ',',
                'Y',
                ' ',
                '@',
                ' ',
            ] + spec_hex4(mem_addr) + seq![' ', '=', ' '] + spec_hex2(stored),
            _ => Seq::<char>::empty(),
        }
    } else {
        if code == 0x0A || code == 0x4A || code == 0x2A || code == 0x6A {
            seq!['A']
        } else {
            Seq::<char>::empty()
        }
    }
}

/// The assembly field of a trace line: the instruction's address, its
/// raw bytes in an 8-column field, the mnemonic right-aligned to 4
/// columns, then the operand syntax (with its separating space only
/// when non-empty).
pub open spec fn spec_assembly_text(
    m: Machine,
    begin: u16,
    code: u8,
    info: OpInfo,
    mem_addr: u16,
    stored: u8,
) -> Seq<char> {
    let b1 = mread(m, u16_specs::wrapping_add(begin, 1));
    let b2 = mread(m, u16_specs::wrapping_add(u16_specs::wrapping_add(begin, 1), 1));
    let dump = if info.length == 2 {
        seq![' '] + spec_hex2(b1) + seq![' ', ' ', ' ']
    } else if info.length == 3 {
        seq![' '] + spec_hex2(b1) + seq![' '] + spec_hex2(b2)
    } else {
        seq![' ', ' ', ' ', ' ', ' ', ' ']
    };
    let mnem = spec_mnemonic(code);
    let mnem4 = if mnem.len() == 4 {
        mnem
    } else {
        seq![' '] + mnem
    };
    let operand = spec_operand_text(m, begin, code, info, mem_addr, stored);
    let head = spec_hex4(begin) + seq![' ', ' '] + spec_hex2(code) + dump + seq![' '] + mnem4;
    if operand.len() == 0 {
        head
    } else {
        head + seq![' '] + operand
    }
}

/// One whole trace line: the assembly field padded to 47 columns, one
/// separating space, and the register snapshot.
pub open spec fn spec_trace_line(
    m: Machine,
    begin: u16,
    code: u8,
    info: OpInfo,
    mem_addr: u16,
    stored: u8,
) -> Seq<char> {
    let assembly = spec_assembly_text(m, begin, code, info, mem_addr, stored);
    assembly + spaces(47 - assembly.len()) + seq![' '] + spec_reg_tail(m.regs)
}

/// The operand-byte reads the renderer performs after resolution: the
/// first of them that lands in the PPU window faults, else the finished
/// line.
/// The first fault among the operand-byte reads the renderer performs
/// after resolution, if any: the bytes after the opcode, as many as the
/// instruction length asks for.
pub open spec fn operand_guard(begin: u16, info: OpInfo) -> Result<(), Fault> {
    let next = u16_specs::wrapping_add(begin, 1);
    let next2 = u16_specs::wrapping_add(next, 1);
    if info.length == 2 {
        if in_ppu_window(next) {
            Err(Fault::PpuRead { address: next })
        } else {
            Ok(())
        }
    } else if info.length == 3 {
        if in_ppu_window(next) {
            Err(Fault::PpuRead { address: next })
        } else if in_ppu_window(next2) {
            Err(Fault::PpuRead { address: next2 })
        } else {
            Ok(())
        }
    } else {
        Ok(())
    }
}

pub open spec fn spec_trace_operands(
    m: Machine,
    begin: u16,
    code: u8,
    info: OpInfo,
    mem_addr: u16,
    stored: u8,
) -> Result<Seq<char>, Fault> {
    match operand_guard(begin, info) {
        Err(f) => Err(f),
        Ok(_) => Ok(spec_trace_line(m, begin, code, info, mem_addr, stored)),
    }
}

/// What the renderer yields on machine `m`: exactly the faults its
/// reads and its table lookup would hit, in the order it performs them,
/// else the fixed-width line.
pub open spec fn spec_trace(m: Machine) -> Result<Seq<char>, Fault> {
    let begin = m.regs.program_counter;
    if in_ppu_window(begin) {
        Err(Fault::PpuRead { address: begin })
    } else {
        let code = mread(m, begin);
        match spec_decode(code) {
            None => Err(Fault::UnrecognizedOpcode { opcode: code, address: begin }),
            Some(info) => match info.mode {
                AddressingMode::Immediate | AddressingMode::Implicit => spec_trace_operands(
                    m,
                    begin,
                    code,
                    info,
                    0,
                    0,
                ),
                _ => match mresolve(m, info.mode, u16_specs::wrapping_add(begin, 1)) {
                    Err(f) => Err(f),
                    Ok(a) => if in_ppu_window(a) {
                        Err(Fault::PpuRead { address: a })
                    } else {
                        spec_trace_operands(m, begin, code, info, a, mread(m, a))
                    },
                },
            },
        }
    }
}

/// Renders the operand-syntax column, performing the operand-byte reads
/// the guard describes.
#[verifier::rlimit(100)]
#[verifier::spinoff_prover]
fn render_operand(
    cpu: &CPU,
    begin: u16,
    code: u8,
    info: OpInfo,
    mem_addr: u16,
    stored_value: u8,
) -> (r: Result<String, Fault>)
    requires
        cpu.wf(),
        spec_decode(code) == Some(info),
    ensures
        r is Ok <==> operand_guard(begin, info) is Ok,
        (r matches Err(f) ==> operand_guard(begin, info) == Err::<(), Fault>(f)),
        (r matches Ok(op) ==> op@ == spec_operand_text(
            machine_of(*cpu),
            begin,
            code,
            info,
            mem_addr,
            stored_value,
        )),
{
    proof {
        reveal_strlit("#$");
        reveal_strlit("$");
        reveal_strlit(" = ");
        reveal_strlit(",X @ ");
        reveal_strlit(",Y @ ");
        reveal_strlit("($");
        reveal_strlit(",X) @ ");
        reveal_strlit("),Y = ");
        reveal_strlit(" @ ");
        reveal_strlit(") = ");
        reveal_strlit("A");
    }
    let ghost m = machine_of(*cpu);
    let mode = info.mode;
    // Operand syntax for the addressing mode.
    let mut operand = String::new();
    if info.length == 2 {
        let address = cpu.bus.read(begin.wrapping_add(1))?;
        match mode {
            AddressingMode::Immediate => {
                operand.append("#$");
                push_hex2(&mut operand, address);
            },
            AddressingMode::ZeroPage => {
                operand.append("$");
                push_hex2(&mut operand, word_lo(mem_addr));
                operand.append(" = ");
                push_hex2(&mut operand, stored_value);
            },
            AddressingMode::ZeroPageX => {
                operand.append("$");
                push_hex2(&mut operand, address);
                operand.append(",X @ ");
                push_hex2(&mut operand, word_lo(mem_addr));
                operand.append(" = ");
                push_hex2(&mut operand, stored_value);
            },
            AddressingMode::ZeroPageY => {
                operand.append("$");
                push_hex2(&mut operand, address);
                operand.append(",Y @ ");
                push_hex2(&mut operand, word_lo(mem_addr));
                operand.append(" = ");
                push_hex2(&mut operand, stored_value);
            },
            AddressingMode::IndexedIndirect => {
                operand.append("($");
                push_hex2(&mut operand, address);
                operand.append(",X) @ ");
                push_hex2(&mut operand, address.wrapping_add(cpu.registers.x));
                operand.append(" = ");
                push_hex4(&mut operand, mem_addr);
                operand.append(" = ");
                push_hex2(&mut operand, stored_value);
            },
            AddressingMode::IndirectIndexed => {
                operand.append("($");
                push_hex2(&mut operand, address);
                operand.append("),Y = ");
                push_hex4(&mut operand, mem_addr.wrapping_sub(cpu.registers.y as u16));
                operand.append(" @ ");
                push_hex4(&mut operand, mem_addr);
                operand.append(" = ");
                push_hex2(&mut operand, stored_value);
            },
            AddressingMode::Implicit => {
                // Conditional branches: the target of the relative offset.
                let displacement: u16 = if address >= 0x80 {
                    0xFF00 + (address as u16)
                } else {
                    address as u16
                };
                let target = begin.wrapping_add(2).wrapping_add(displacement);
                operand.append("$");
                push_hex4(&mut operand, target);
            },
            _ => {},
        }
    } else if info.length == 3 {
        let address = cpu.bus.read_u16(begin.wrapping_add(1))?;
        match mode {
            AddressingMode::Indirect => {
                operand.append("($");
                push_hex4(&mut operand, address);
                operand.append(") = ");
                push_hex4(&mut operand, mem_addr);
            },
            AddressingMode::Absolute => {
                if code == 0x4C || code == 0x20 {
                    operand.append("$");
                    push_hex4(&mut operand, address);
                } else {
                    operand.append("$");
                    push_hex4(&mut operand, mem_addr);
                    operand.append(" = ");
                    push_hex2(&mut operand, stored_value);
                }
            },
            AddressingMode::AbsoluteX => {
                operand.append("$");
                push_hex4(&mut operand, address);
                operand.append(",X @ ");
                push_hex4(&mut operand, mem_addr);
                operand.append(" = ");
                push_hex2(&mut operand, stored_value);
            },
            AddressingMode::AbsoluteY => {
                operand.append("$");
                push_hex4(&mut operand, address);
                operand.append(",Y @ ");
                push_hex4(&mut operand, mem_addr);
                operand.append(" = ");
                push_hex2(&mut operand, stored_value);
            },
            _ => {},
        }
    } else {
        match code {
            0x0A | 0x4A | 0x2A | 0x6A => operand.append("A"),
            _ => {},
        }
    }
    assert(operand@ =~= spec_operand_text(m, begin, code, info, mem_addr, stored_value));
    Ok(operand)
}

/// Renders the trace line for the instruction the program counter points
/// at. The line starts with the four hex digits of that address, is at
/// least 73 characters long (a 47-column assembly field, a separator and
/// the 25-character register snapshot), and always ends with the
/// register snapshot as-of the call. A fetch that lands in the PPU
/// window or an opcode outside the instruction table is the same fatal
/// fault it would be to execute.
#[verifier::rlimit(100)]
#[verifier::spinoff_prover]
pub fn trace(cpu: &CPU) -> (r: Result<String, Fault>)
    requires
        cpu.wf(),
    ensures
        (r matches Ok(line) ==> (spec_trace(machine_of(*cpu)) matches Ok(text) && line@ == text)),
        (r matches Err(f) ==> spec_trace(machine_of(*cpu)) == Err::<Seq<char>, Fault>(f)),
        (r matches Ok(line) ==> line@.len() >= 73 && line@.subrange(0, 4) == spec_hex4(
            cpu.registers.program_counter,
        ) && line@.subrange(line@.len() - 25, line@.len() as int) == spec_reg_tail(
            cpu.registers,
        )),
{
    proof {
        reveal_strlit("  ");
        reveal_strlit(" ");
        reveal_strlit("   ");
        reveal_strlit("      ");
    }
    let ghost m = machine_of(*cpu);
    let begin = cpu.registers.program_counter;
    let code = cpu.bus.read(begin)?;
    let info = match decode(code) {
        Some(info) => info,
        None => {
            return Err(Fault::UnrecognizedOpcode { opcode: code, address: begin });
        },
    };
    let mode = info.mode;

    let (mem_addr, stored_value): (u16, u8) = match mode {
        AddressingMode::Immediate | AddressingMode::Implicit => (0, 0),
        _ => {
            let addr = cpu.get_absolute_address(mode, begin.wrapping_add(1))?;
            let v = cpu.bus.read(addr)?;
            (addr, v)
        },
    };

    let operand = render_operand(cpu, begin, code, info, mem_addr, stored_value)?;

    // The line: address, raw bytes in an 8-column field, the mnemonic
    // right-aligned to 4 columns, the operand syntax, all padded to 47
    // columns, then the register snapshot.
    let mut line = String::new();
    push_hex4(&mut line, begin);
    line.append("  ");
    push_hex2(&mut line, code);
    if info.length == 2 {
        let b1 = cpu.bus.read(begin.wrapping_add(1))?;
        line.append(" ");
        push_hex2(&mut line, b1);
        line.append("   ");
    } else if info.length == 3 {
        let b1 = cpu.bus.read(begin.wrapping_add(1))?;
        let b2 = cpu.bus.read(begin.wrapping_add(1).wrapping_add(1))?;
        line.append(" ");
        push_hex2(&mut line, b1);
        line.append(" ");
        push_hex2(&mut line, b2);
    } else {
        line.append("      ");
    }
    line.append(" ");
    let name = mnemonic(code);
    if !mnemonic_starred(code) {
        proof {
            assert(spec_mnemonic(code).len() == 3 || spec_mnemonic(code).len() == 4);
        }
        line.append(" ");
    }
    line.append(name);
    let operand_len = operand.as_str().unicode_len();
    if operand_len > 0 {
        line.append(" ");
        line.append(operand.as_str());
    }
    let ghost assembly_text = spec_assembly_text(m, begin, code, info, mem_addr, stored_value);
    assert(line@ =~= assembly_text);

    let mut n = line.as_str().unicode_len();
    while n < 47
        invariant
            n == line@.len(),
            assembly_text.len() <= n,
            n <= 47 || n == assembly_text.len(),
            line@ == assembly_text + spaces(n - assembly_text.len()),
        decreases 47 - n,
    {
        line.append(" ");
        proof {
            reveal_strlit(" ");
            assert(line@ =~= assembly_text + spaces(n + 1 - assembly_text.len()));
        }
        n = n + 1;
    }
    proof {
        assert(spaces(n - assembly_text.len()) =~= spaces(47 - assembly_text.len()));
    }
    line.append(" ");
    push_reg_tail(&mut line, &cpu.registers);
    proof {
        assert(line@ =~= spec_trace_line(m, begin, code, info, mem_addr, stored_value));
        assert(spec_trace(m) == Ok::<Seq<char>, Fault>(
            spec_trace_line(m, begin, code, info, mem_addr, stored_value),
        ));
        assert(spec_reg_tail(cpu.registers).len() == 25);
        assert(line@.len() >= 73);
        assert(line@.subrange(line@.len() - 25, line@.len() as int) =~= spec_reg_tail(
            cpu.registers,
        ));
        assert(line@.subrange(0, 4) =~= spec_hex4(begin));
    }
    Ok(line)
}

} // verus!
