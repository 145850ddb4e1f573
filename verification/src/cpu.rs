//! The CPU core: the register file and the fetch-decode-execute loop.
//! Every memory access goes through the bus; the CPU owns the bus
//! outright, the bus owns RAM and cartridge, so there is no shared
//! mutable state anywhere in the core.

use vstd::prelude::*;

use crate::addressing_mode::AddressingMode;
use crate::bus::{decoded_read, in_ppu_window, ram_after_write, ram_index, write_ok, Bus};
use crate::fault::Fault;
use crate::opcodes::{decode, spec_decode};
use crate::registers::{add_result, add_status, Registers};
use crate::status_flags::{
    has_flag, set_bit, with_nz, BREAK, CARRY, DECIMAL, INTERRUPT_DISABLE, NEGATIVE, OVERFLOW,
    UNUSED, ZERO,
};
use crate::word::{hi_byte, lo_byte, make_word, sign_ext, word, word_hi, word_lo};
use vstd::wrapping::{u16_specs, u8_specs};

verus! {

broadcast use vstd::std_specs::control_flow::group_control_flow_axioms;

/// The processor: registers plus the bus it drives.
pub struct CPU {
    pub bus: Bus,
    pub registers: Registers,
}

/// What every instruction leaves alone: the cartridge (ROM is never
/// written), the size of internal RAM, and the reset-vector cell.
pub open spec fn frame(pre: CPU, post: CPU) -> bool {
    &&& post.bus.cartridge == pre.bus.cartridge
    &&& post.bus.cpu_vram@.len() == pre.bus.cpu_vram@.len()
    &&& post.bus.reset_vector == pre.bus.reset_vector
}

/// The whole machine state the instruction semantics range over: the
/// register file, the 2KB RAM, the (immutable) PRG ROM bytes, and the
/// reset-vector cell.
#[verifier::ext_equal]
pub ghost struct Machine {
    pub regs: Registers,
    pub ram: Seq<u8>,
    pub prg: Seq<u8>,
    pub vector: Option<u16>,
}

/// The machine state a CPU value carries.
pub open spec fn machine_of(cpu: CPU) -> Machine {
    Machine {
        regs: cpu.registers,
        ram: cpu.bus.cpu_vram@,
        prg: cpu.bus.cartridge.prg_rom@,
        vector: cpu.bus.reset_vector,
    }
}

/// Outcome of one fetch-decode-execute iteration: the machine after it
/// and the loop's verdict (continue, BRK halt, or fault).
#[verifier::ext_equal]
pub ghost struct MachineStep {
    pub machine: Machine,
    pub result: Result<bool, Fault>,
}

/// Outcome of a whole run: the final machine and how the loop ended.
#[verifier::ext_equal]
pub ghost struct RunOutcome {
    pub machine: Machine,
    pub result: Result<(), Fault>,
}

/// The byte a bus read yields at `address` in machine `m`.
pub open spec fn mread(m: Machine, address: u16) -> u8 {
    decoded_read(m.ram, m.prg, m.vector, address)
}

/// The little-endian word read at `address` and its wrapping successor.
pub open spec fn mread16(m: Machine, address: u16) -> u16 {
    word(mread(m, address), mread(m, u16_specs::wrapping_add(address, 1)))
}

/// The word formed by two zero-page reads at pointer `p` and
/// `p + 1 mod 256`: both bytes stay within the zero page.
pub open spec fn mzp_ptr(m: Machine, p: u8) -> u16 {
    word(mread(m, p as u16), mread(m, u8_specs::wrapping_add(p, 1) as u16))
}

/// A checked 16-bit read: the exact fault of the first of the two byte
/// reads that lands in the PPU window, else the word.
pub open spec fn mread16_checked(m: Machine, address: u16) -> Result<u16, Fault> {
    if in_ppu_window(address) {
        Err(Fault::PpuRead { address })
    } else if in_ppu_window(u16_specs::wrapping_add(address, 1)) {
        Err(Fault::PpuRead { address: u16_specs::wrapping_add(address, 1) })
    } else {
        Ok(mread16(m, address))
    }
}

/// The exact result of resolving `mode` against the operand bytes at
/// `base`: the effective address, or the first fault the resolution's
/// reads hit. `Indirect` reproduces the documented page-boundary quirk:
/// a pointer whose low byte is 0xFF takes its high byte from the start
/// of the same page.
pub open spec fn mresolve(m: Machine, mode: AddressingMode, base: u16) -> Result<u16, Fault> {
    match mode {
        AddressingMode::Absolute => mread16_checked(m, base),
        AddressingMode::AbsoluteX => match mread16_checked(m, base) {
            Ok(v) => Ok(u16_specs::wrapping_add(v, m.regs.x as u16)),
            Err(f) => Err(f),
        },
        AddressingMode::AbsoluteY => match mread16_checked(m, base) {
            Ok(v) => Ok(u16_specs::wrapping_add(v, m.regs.y as u16)),
            Err(f) => Err(f),
        },
        AddressingMode::ZeroPage => if in_ppu_window(base) {
            Err(Fault::PpuRead { address: base })
        } else {
            Ok(mread(m, base) as u16)
        },
        AddressingMode::ZeroPageX => if in_ppu_window(base) {
            Err(Fault::PpuRead { address: base })
        } else {
            Ok(u8_specs::wrapping_add(mread(m, base), m.regs.x) as u16)
        },
        AddressingMode::ZeroPageY => if in_ppu_window(base) {
            Err(Fault::PpuRead { address: base })
        } else {
            Ok(u8_specs::wrapping_add(mread(m, base), m.regs.y) as u16)
        },
        AddressingMode::Indirect => match mread16_checked(m, base) {
            Err(f) => Err(f),
            Ok(p) => if p & 0x00FF == 0x00FF {
                if in_ppu_window(p) {
                    Err(Fault::PpuRead { address: p })
                } else if in_ppu_window(p & 0xFF00) {
                    Err(Fault::PpuRead { address: p & 0xFF00 })
                } else {
                    Ok(word(mread(m, p), mread(m, p & 0xFF00)))
                }
            } else {
                mread16_checked(m, p)
            },
        },
        AddressingMode::IndexedIndirect => if in_ppu_window(base) {
            Err(Fault::PpuRead { address: base })
        } else {
            Ok(mzp_ptr(m, u8_specs::wrapping_add(mread(m, base), m.regs.x)))
        },
        AddressingMode::IndirectIndexed => if in_ppu_window(base) {
            Err(Fault::PpuRead { address: base })
        } else {
            Ok(u16_specs::wrapping_add(mzp_ptr(m, mread(m, base)), m.regs.y as u16))
        },
        AddressingMode::Immediate | AddressingMode::Implicit => Ok(0),
    }
}

/// Resolution of the current instruction's operand address: the program
/// counter itself for an immediate operand, else `mresolve` based at
/// the program counter.
pub open spec fn moperand_resolve(m: Machine, mode: AddressingMode) -> Result<u16, Fault> {
    if mode == AddressingMode::Immediate {
        Ok(m.regs.program_counter)
    } else {
        mresolve(m, mode, m.regs.program_counter)
    }
}

/// A step that faults, leaving machine `m` as it stands.
pub open spec fn step_fault(m: Machine, f: Fault) -> MachineStep {
    MachineStep { machine: m, result: Err(f) }
}

/// A step that continues with register file `regs` and memory untouched.
pub open spec fn step_regs(m: Machine, regs: Registers) -> MachineStep {
    MachineStep { machine: Machine { regs, ..m }, result: Ok(true) }
}

/// A step that continues with RAM `ram` and register file `regs`.
pub open spec fn step_ram_regs(m: Machine, ram: Seq<u8>, regs: Registers) -> MachineStep {
    MachineStep { machine: Machine { regs, ram, ..m }, result: Ok(true) }
}

/// LDA effect at a resolved address.
pub open spec fn eff_lda(m: Machine, address: u16) -> MachineStep {
    if in_ppu_window(address) {
        step_fault(m, Fault::PpuRead { address })
    } else {
        let v = mread(m, address);
        step_regs(m, Registers { a: v, status: with_nz(m.regs.status, v), ..m.regs })
    }
}

/// LDX effect.
pub open spec fn eff_ldx(m: Machine, address: u16) -> MachineStep {
    if in_ppu_window(address) {
        step_fault(m, Fault::PpuRead { address })
    } else {
        let v = mread(m, address);
        step_regs(m, Registers { x: v, status: with_nz(m.regs.status, v), ..m.regs })
    }
}

/// LDY effect.
pub open spec fn eff_ldy(m: Machine, address: u16) -> MachineStep {
    if in_ppu_window(address) {
        step_fault(m, Fault::PpuRead { address })
    } else {
        let v = mread(m, address);
        step_regs(m, Registers { y: v, status: with_nz(m.regs.status, v), ..m.regs })
    }
}

/// Effect of storing `data` at a resolved address (STA/STX/STY/SAX).
pub open spec fn eff_store(m: Machine, address: u16, data: u8) -> MachineStep {
    if in_ppu_window(address) {
        step_fault(m, Fault::PpuWrite { address })
    } else if address >= 0x8000 {
        step_fault(m, Fault::RomWrite { address })
    } else {
        MachineStep {
            machine: Machine { ram: ram_after_write(m.ram, address, data), ..m },
            result: Ok(true),
        }
    }
}

/// DEC effect.
pub open spec fn eff_dec(m: Machine, address: u16) -> MachineStep {
    if in_ppu_window(address) {
        step_fault(m, Fault::PpuRead { address })
    } else if address >= 0x8000 {
        step_fault(m, Fault::RomWrite { address })
    } else {
        let data = u8_specs::wrapping_sub(mread(m, address), 1);
        step_ram_regs(
            m,
            ram_after_write(m.ram, address, data),
            Registers { status: with_nz(m.regs.status, data), ..m.regs },
        )
    }
}

/// INC effect.
pub open spec fn eff_inc(m: Machine, address: u16) -> MachineStep {
    if in_ppu_window(address) {
        step_fault(m, Fault::PpuRead { address })
    } else if address >= 0x8000 {
        step_fault(m, Fault::RomWrite { address })
    } else {
        let data = u8_specs::wrapping_add(mread(m, address), 1);
        step_ram_regs(
            m,
            ram_after_write(m.ram, address, data),
            Registers { status: with_nz(m.regs.status, data), ..m.regs },
        )
    }
}

/// ADC effect.
pub open spec fn eff_adc(m: Machine, address: u16) -> MachineStep {
    if in_ppu_window(address) {
        step_fault(m, Fault::PpuRead { address })
    } else {
        let v = mread(m, address);
        step_regs(
            m,
            Registers {
                a: add_result(m.regs.a, v, m.regs.status),
                status: add_status(m.regs.a, v, m.regs.status),
                ..m.regs
            },
        )
    }
}

/// SBC effect: addition of the bitwise complement.
pub open spec fn eff_sbc(m: Machine, address: u16) -> MachineStep {
    if in_ppu_window(address) {
        step_fault(m, Fault::PpuRead { address })
    } else {
        let v = !mread(m, address);
        step_regs(
            m,
            Registers {
                a: add_result(m.regs.a, v, m.regs.status),
                status: add_status(m.regs.a, v, m.regs.status),
                ..m.regs
            },
        )
    }
}

/// AND effect.
pub open spec fn eff_and(m: Machine, address: u16) -> MachineStep {
    if in_ppu_window(address) {
        step_fault(m, Fault::PpuRead { address })
    } else {
        let v = m.regs.a & mread(m, address);
        step_regs(m, Registers { a: v, status: with_nz(m.regs.status, v), ..m.regs })
    }
}

/// EOR effect.
pub open spec fn eff_eor(m: Machine, address: u16) -> MachineStep {
    if in_ppu_window(address) {
        step_fault(m, Fault::PpuRead { address })
    } else {
        let v = m.regs.a ^ mread(m, address);
        step_regs(m, Registers { a: v, status: with_nz(m.regs.status, v), ..m.regs })
    }
}

/// ORA effect.
pub open spec fn eff_ora(m: Machine, address: u16) -> MachineStep {
    if in_ppu_window(address) {
        step_fault(m, Fault::PpuRead { address })
    } else {
        let v = m.regs.a | mread(m, address);
        step_regs(m, Registers { a: v, status: with_nz(m.regs.status, v), ..m.regs })
    }
}

/// ASL-on-memory effect; a fatal ROM-window write-back still leaves the
/// Carry already rewritten, as the executable order does.
pub open spec fn eff_asl_mem(m: Machine, address: u16) -> MachineStep {
    if in_ppu_window(address) {
        step_fault(m, Fault::PpuRead { address })
    } else {
        let data = mread(m, address);
        let carried = Registers { status: set_bit(m.regs.status, CARRY, data & 0x80 == 0x80), ..m.regs };
        if address >= 0x8000 {
            MachineStep {
                machine: Machine { regs: carried, ..m },
                result: Err(Fault::RomWrite { address }),
            }
        } else {
            let shifted = data << 1;
            step_ram_regs(
                m,
                ram_after_write(m.ram, address, shifted),
                Registers {
                    status: with_nz(set_bit(m.regs.status, CARRY, data & 0x80 == 0x80), shifted),
                    ..m.regs
                },
            )
        }
    }
}

/// LSR-on-memory effect.
pub open spec fn eff_lsr_mem(m: Machine, address: u16) -> MachineStep {
    if in_ppu_window(address) {
        step_fault(m, Fault::PpuRead { address })
    } else {
        let data = mread(m, address);
        let carried = Registers { status: set_bit(m.regs.status, CARRY, data & 0x01 == 0x01), ..m.regs };
        if address >= 0x8000 {
            MachineStep {
                machine: Machine { regs: carried, ..m },
                result: Err(Fault::RomWrite { address }),
            }
        } else {
            let shifted = data >> 1;
            step_ram_regs(
                m,
                ram_after_write(m.ram, address, shifted),
                Registers {
                    status: with_nz(set_bit(m.regs.status, CARRY, data & 0x01 == 0x01), shifted),
                    ..m.regs
                },
            )
        }
    }
}

/// ROL-on-memory effect.
pub open spec fn eff_rol_mem(m: Machine, address: u16) -> MachineStep {
    if in_ppu_window(address) {
        step_fault(m, Fault::PpuRead { address })
    } else {
        let data = mread(m, address);
        let carried = Registers { status: set_bit(m.regs.status, CARRY, data & 0x80 == 0x80), ..m.regs };
        if address >= 0x8000 {
            MachineStep {
                machine: Machine { regs: carried, ..m },
                result: Err(Fault::RomWrite { address }),
            }
        } else {
            let rotated = (data << 1) | (if has_flag(m.regs.status, CARRY) {
                0x01u8
            } else {
                0x00u8
            });
            step_ram_regs(
                m,
                ram_after_write(m.ram, address, rotated),
                Registers {
                    status: with_nz(set_bit(m.regs.status, CARRY, data & 0x80 == 0x80), rotated),
                    ..m.regs
                },
            )
        }
    }
}

/// ROR-on-memory effect.
pub open spec fn eff_ror_mem(m: Machine, address: u16) -> MachineStep {
    if in_ppu_window(address) {
        step_fault(m, Fault::PpuRead { address })
    } else {
        let data = mread(m, address);
        let carried = Registers { status: set_bit(m.regs.status, CARRY, data & 0x01 == 0x01), ..m.regs };
        if address >= 0x8000 {
            MachineStep {
                machine: Machine { regs: carried, ..m },
                result: Err(Fault::RomWrite { address }),
            }
        } else {
            let rotated = (data >> 1) | (if has_flag(m.regs.status, CARRY) {
                0x80u8
            } else {
                0x00u8
            });
            step_ram_regs(
                m,
                ram_after_write(m.ram, address, rotated),
                Registers {
                    status: with_nz(set_bit(m.regs.status, CARRY, data & 0x01 == 0x01), rotated),
                    ..m.regs
                },
            )
        }
    }
}

/// Comparison effect against register value `rv` (CMP/CPX/CPY).
pub open spec fn eff_cmp(m: Machine, address: u16, rv: u8) -> MachineStep {
    if in_ppu_window(address) {
        step_fault(m, Fault::PpuRead { address })
    } else {
        let v = mread(m, address);
        step_regs(
            m,
            Registers {
                status: with_nz(
                    set_bit(m.regs.status, CARRY, rv >= v),
                    u8_specs::wrapping_sub(rv, v),
                ),
                ..m.regs
            },
        )
    }
}

/// BIT effect.
pub open spec fn eff_bit(m: Machine, address: u16) -> MachineStep {
    if in_ppu_window(address) {
        step_fault(m, Fault::PpuRead { address })
    } else {
        let data = mread(m, address);
        step_regs(
            m,
            Registers {
                status: set_bit(
                    set_bit(
                        set_bit(m.regs.status, ZERO, m.regs.a & data == 0),
                        NEGATIVE,
                        data & 0x80 == 0x80,
                    ),
                    OVERFLOW,
                    data & 0x40 == 0x40,
                ),
                ..m.regs
            },
        )
    }
}

/// Conditional-branch effect: reads the signed offset at the program
/// counter only when the condition holds.
pub open spec fn eff_branch(m: Machine, condition: bool) -> MachineStep {
    if !condition {
        MachineStep { machine: m, result: Ok(true) }
    } else {
        let pc = m.regs.program_counter;
        if in_ppu_window(pc) {
            step_fault(m, Fault::PpuRead { address: pc })
        } else {
            step_regs(
                m,
                Registers {
                    program_counter: u16_specs::wrapping_add(
                        u16_specs::wrapping_add(pc, 1),
                        sign_ext(mread(m, pc)),
                    ),
                    ..m.regs
                },
            )
        }
    }
}

/// JSR effect: the return address (the JSR's last byte) is pushed high
/// byte first, then the absolute operand is read from the updated RAM.
pub open spec fn eff_jsr(m: Machine) -> MachineStep {
    let pc = m.regs.program_counter;
    let sp = m.regs.stack_pointer;
    let ret = u16_specs::wrapping_add(pc, 1);
    let ram2 = m.ram.update(0x0100 + sp as int, hi_byte(ret)).update(
        0x0100 + u8_specs::wrapping_sub(sp, 1) as int,
        lo_byte(ret),
    );
    let sp2 = u8_specs::wrapping_sub(u8_specs::wrapping_sub(sp, 1), 1);
    let pushed = Machine {
        ram: ram2,
        regs: Registers { stack_pointer: sp2, ..m.regs },
        ..m
    };
    match mresolve(pushed, AddressingMode::Absolute, pc) {
        Err(f) => MachineStep { machine: pushed, result: Err(f) },
        Ok(target) => step_ram_regs(
            m,
            ram2,
            Registers { stack_pointer: sp2, program_counter: target, ..m.regs },
        ),
    }
}

/// RTS effect: pull the 16-bit return address, low byte first, plus one.
pub open spec fn eff_rts(m: Machine) -> MachineStep {
    let sp = m.regs.stack_pointer;
    let lo = mread(m, stack_addr(u8_specs::wrapping_add(sp, 1)));
    let hi = mread(m, stack_addr(u8_specs::wrapping_add(u8_specs::wrapping_add(sp, 1), 1)));
    step_regs(
        m,
        Registers {
            stack_pointer: u8_specs::wrapping_add(u8_specs::wrapping_add(sp, 1), 1),
            program_counter: u16_specs::wrapping_add(word(lo, hi), 1),
            ..m.regs
        },
    )
}

/// RTI effect: pull the status (Break cleared, Unused set), then the
/// 16-bit program counter.
pub open spec fn eff_rti(m: Machine) -> MachineStep {
    let sp = m.regs.stack_pointer;
    let status = mread(m, stack_addr(u8_specs::wrapping_add(sp, 1)));
    let sp1 = u8_specs::wrapping_add(sp, 1);
    let lo = mread(m, stack_addr(u8_specs::wrapping_add(sp1, 1)));
    let hi = mread(m, stack_addr(u8_specs::wrapping_add(u8_specs::wrapping_add(sp1, 1), 1)));
    step_regs(
        m,
        Registers {
            status: set_bit(set_bit(status, BREAK, false), UNUSED, true),
            stack_pointer: u8_specs::wrapping_add(u8_specs::wrapping_add(sp1, 1), 1),
            program_counter: word(lo, hi),
            ..m.regs
        },
    )
}

/// PHA effect.
pub open spec fn eff_pha(m: Machine) -> MachineStep {
    step_ram_regs(
        m,
        m.ram.update(0x0100 + m.regs.stack_pointer as int, m.regs.a),
        Registers { stack_pointer: u8_specs::wrapping_sub(m.regs.stack_pointer, 1), ..m.regs },
    )
}

/// PHP effect: the pushed copy has Break and Unused forced set.
pub open spec fn eff_php(m: Machine) -> MachineStep {
    step_ram_regs(
        m,
        m.ram.update(
            0x0100 + m.regs.stack_pointer as int,
            set_bit(set_bit(m.regs.status, BREAK, true), UNUSED, true),
        ),
        Registers { stack_pointer: u8_specs::wrapping_sub(m.regs.stack_pointer, 1), ..m.regs },
    )
}

/// PLA effect.
pub open spec fn eff_pla(m: Machine) -> MachineStep {
    let popped = mread(m, stack_addr(u8_specs::wrapping_add(m.regs.stack_pointer, 1)));
    step_regs(
        m,
        Registers {
            a: popped,
            status: with_nz(m.regs.status, popped),
            stack_pointer: u8_specs::wrapping_add(m.regs.stack_pointer, 1),
            ..m.regs
        },
    )
}

/// PLP effect: the restored status has Break cleared and Unused set.
pub open spec fn eff_plp(m: Machine) -> MachineStep {
    let popped = mread(m, stack_addr(u8_specs::wrapping_add(m.regs.stack_pointer, 1)));
    step_regs(
        m,
        Registers {
            status: set_bit(set_bit(popped, BREAK, false), UNUSED, true),
            stack_pointer: u8_specs::wrapping_add(m.regs.stack_pointer, 1),
            ..m.regs
        },
    )
}

/// ALR effect (undocumented): AND, then LSR on the accumulator.
pub open spec fn eff_alr(m: Machine, address: u16) -> MachineStep {
    if in_ppu_window(address) {
        step_fault(m, Fault::PpuRead { address })
    } else {
        let masked = m.regs.a & mread(m, address);
        step_regs(
            m,
            Registers {
                a: masked >> 1,
                status: with_nz(
                    set_bit(m.regs.status, CARRY, masked & 0x01 == 0x01),
                    masked >> 1,
                ),
                ..m.regs
            },
        )
    }
}

/// ANC effect (undocumented): AND, then Negative copied into Carry.
pub open spec fn eff_anc(m: Machine, address: u16) -> MachineStep {
    if in_ppu_window(address) {
        step_fault(m, Fault::PpuRead { address })
    } else {
        let masked = m.regs.a & mread(m, address);
        let s1 = with_nz(m.regs.status, masked);
        step_regs(
            m,
            Registers { a: masked, status: set_bit(s1, CARRY, has_flag(s1, NEGATIVE)), ..m.regs },
        )
    }
}

/// ANE effect (undocumented): the accumulator takes X masked by the
/// operand.
pub open spec fn eff_ane(m: Machine, address: u16) -> MachineStep {
    if in_ppu_window(address) {
        step_fault(m, Fault::PpuRead { address })
    } else {
        let masked = m.regs.x & mread(m, address);
        step_regs(m, Registers { a: masked, status: with_nz(m.regs.status, masked), ..m.regs })
    }
}

/// DCP effect (undocumented): decrement memory, then compare with the
/// accumulator.
pub open spec fn eff_dcp(m: Machine, address: u16) -> MachineStep {
    if in_ppu_window(address) {
        step_fault(m, Fault::PpuRead { address })
    } else if address >= 0x8000 {
        step_fault(m, Fault::RomWrite { address })
    } else {
        let data = u8_specs::wrapping_sub(mread(m, address), 1);
        step_ram_regs(
            m,
            ram_after_write(m.ram, address, data),
            Registers {
                status: with_nz(
                    set_bit(m.regs.status, CARRY, m.regs.a >= data),
                    u8_specs::wrapping_sub(m.regs.a, data),
                ),
                ..m.regs
            },
        )
    }
}

/// ISC effect (undocumented): increment memory, then subtract it with
/// borrow.
pub open spec fn eff_isc(m: Machine, address: u16) -> MachineStep {
    if in_ppu_window(address) {
        step_fault(m, Fault::PpuRead { address })
    } else if address >= 0x8000 {
        step_fault(m, Fault::RomWrite { address })
    } else {
        let data = u8_specs::wrapping_add(mread(m, address), 1);
        let s1 = with_nz(m.regs.status, data);
        step_ram_regs(
            m,
            ram_after_write(m.ram, address, data),
            Registers {
                a: add_result(m.regs.a, !data, s1),
                status: add_status(m.regs.a, !data, s1),
                ..m.regs
            },
        )
    }
}

/// LAS effect (undocumented).
pub open spec fn eff_las(m: Machine, address: u16) -> MachineStep {
    if in_ppu_window(address) {
        step_fault(m, Fault::PpuRead { address })
    } else {
        let masked = m.regs.stack_pointer & mread(m, address);
        step_regs(
            m,
            Registers {
                a: masked,
                x: masked,
                stack_pointer: masked,
                status: with_nz(m.regs.status, masked),
                ..m.regs
            },
        )
    }
}

/// LAX effect (undocumented).
pub open spec fn eff_lax(m: Machine, address: u16) -> MachineStep {
    if in_ppu_window(address) {
        step_fault(m, Fault::PpuRead { address })
    } else {
        let v = mread(m, address);
        step_regs(
            m,
            Registers { a: v, x: v, status: with_nz(m.regs.status, v), ..m.regs },
        )
    }
}

/// RLA effect (undocumented): ROL memory, then AND.
pub open spec fn eff_rla(m: Machine, address: u16) -> MachineStep {
    if in_ppu_window(address) {
        step_fault(m, Fault::PpuRead { address })
    } else {
        let data = mread(m, address);
        if address >= 0x8000 {
            MachineStep {
                machine: Machine {
                    regs: Registers {
                        status: set_bit(m.regs.status, CARRY, data & 0x80 == 0x80),
                        ..m.regs
                    },
                    ..m
                },
                result: Err(Fault::RomWrite { address }),
            }
        } else {
            let rotated = (data << 1) | (if has_flag(m.regs.status, CARRY) {
                0x01u8
            } else {
                0x00u8
            });
            let s1 = with_nz(set_bit(m.regs.status, CARRY, data & 0x80 == 0x80), rotated);
            let masked = m.regs.a & rotated;
            step_ram_regs(
                m,
                ram_after_write(m.ram, address, rotated),
                Registers { a: masked, status: with_nz(s1, masked), ..m.regs },
            )
        }
    }
}

/// RRA effect (undocumented): ROR memory, then add with the fresh Carry.
pub open spec fn eff_rra(m: Machine, address: u16) -> MachineStep {
    if in_ppu_window(address) {
        step_fault(m, Fault::PpuRead { address })
    } else {
        let data = mread(m, address);
        if address >= 0x8000 {
            MachineStep {
                machine: Machine {
                    regs: Registers {
                        status: set_bit(m.regs.status, CARRY, data & 0x01 == 0x01),
                        ..m.regs
                    },
                    ..m
                },
                result: Err(Fault::RomWrite { address }),
            }
        } else {
            let rotated = (data >> 1) | (if has_flag(m.regs.status, CARRY) {
                0x80u8
            } else {
                0x00u8
            });
            let s1 = with_nz(set_bit(m.regs.status, CARRY, data & 0x01 == 0x01), rotated);
            step_ram_regs(
                m,
                ram_after_write(m.ram, address, rotated),
                Registers {
                    a: add_result(m.regs.a, rotated, s1),
                    status: add_status(m.regs.a, rotated, s1),
                    ..m.regs
                },
            )
        }
    }
}

/// SLO effect (undocumented): ASL memory, then OR.
pub open spec fn eff_slo(m: Machine, address: u16) -> MachineStep {
    if in_ppu_window(address) {
        step_fault(m, Fault::PpuRead { address })
    } else {
        let data = mread(m, address);
        if address >= 0x8000 {
            MachineStep {
                machine: Machine {
                    regs: Registers {
                        status: set_bit(m.regs.status, CARRY, data & 0x80 == 0x80),
                        ..m.regs
                    },
                    ..m
                },
                result: Err(Fault::RomWrite { address }),
            }
        } else {
            let shifted = data << 1;
            let s1 = with_nz(set_bit(m.regs.status, CARRY, data & 0x80 == 0x80), shifted);
            let merged = m.regs.a | shifted;
            step_ram_regs(
                m,
                ram_after_write(m.ram, address, shifted),
                Registers { a: merged, status: with_nz(s1, merged), ..m.regs },
            )
        }
    }
}

/// SRE effect (undocumented): LSR memory, then EOR.
pub open spec fn eff_sre(m: Machine, address: u16) -> MachineStep {
    if in_ppu_window(address) {
        step_fault(m, Fault::PpuRead { address })
    } else {
        let data = mread(m, address);
        if address >= 0x8000 {
            MachineStep {
                machine: Machine {
                    regs: Registers {
                        status: set_bit(m.regs.status, CARRY, data & 0x01 == 0x01),
                        ..m.regs
                    },
                    ..m
                },
                result: Err(Fault::RomWrite { address }),
            }
        } else {
            let shifted = data >> 1;
            let s1 = with_nz(set_bit(m.regs.status, CARRY, data & 0x01 == 0x01), shifted);
            let merged = m.regs.a ^ shifted;
            step_ram_regs(
                m,
                ram_after_write(m.ram, address, shifted),
                Registers { a: merged, status: with_nz(s1, merged), ..m.regs },
            )
        }
    }
}

/// The effect of the already-fetched instruction `code` on the
/// post-fetch machine `m` (program counter one past the opcode byte):
/// operand resolution, then the instruction body. BRK never reaches this
/// function; the step semantics halts on it first.
pub open spec fn spec_execute(m: Machine, code: u8) -> MachineStep {
    match spec_decode(code) {
        None => MachineStep { machine: m, result: Ok(true) },
        Some(info) => {
            let mode = info.mode;
            match code {
                // LDA
                0xA9 | 0xA5 | 0xB5 | 0xAD | 0xBD | 0xB9 | 0xA1 | 0xB1 => match moperand_resolve(
                    m,
                    mode,
                ) {
                    Err(f) => step_fault(m, f),
                    Ok(a) => eff_lda(m, a),
                },
                // LDX
                0xA2 | 0xA6 | 0xB6 | 0xAE | 0xBE => match moperand_resolve(m, mode) {
                    Err(f) => step_fault(m, f),
                    Ok(a) => eff_ldx(m, a),
                },
                // LDY
                0xA0 | 0xA4 | 0xB4 | 0xAC | 0xBC => match moperand_resolve(m, mode) {
                    Err(f) => step_fault(m, f),
                    Ok(a) => eff_ldy(m, a),
                },
                // STA
                0x85 | 0x95 | 0x8D | 0x9D | 0x99 | 0x81 | 0x91 => match moperand_resolve(
                    m,
                    mode,
                ) {
                    Err(f) => step_fault(m, f),
                    Ok(a) => eff_store(m, a, m.regs.a),
                },
                // STX
                0x86 | 0x96 | 0x8E => match moperand_resolve(m, mode) {
                    Err(f) => step_fault(m, f),
                    Ok(a) => eff_store(m, a, m.regs.x),
                },
                // STY
                0x84 | 0x94 | 0x8C => match moperand_resolve(m, mode) {
                    Err(f) => step_fault(m, f),
                    Ok(a) => eff_store(m, a, m.regs.y),
                },
                // TAX
                0xAA => step_regs(
                    m,
                    Registers {
                        x: m.regs.a,
                        status: with_nz(m.regs.status, m.regs.a),
                        ..m.regs
                    },
                ),
                // TAY
                0xA8 => step_regs(
                    m,
                    Registers {
                        y: m.regs.a,
                        status: with_nz(m.regs.status, m.regs.a),
                        ..m.regs
                    },
                ),
                // TSX
                0xBA => step_regs(
                    m,
                    Registers {
                        x: m.regs.stack_pointer,
                        status: with_nz(m.regs.status, m.regs.stack_pointer),
                        ..m.regs
                    },
                ),
                // TXA
                0x8A => step_regs(
                    m,
                    Registers {
                        a: m.regs.x,
                        status: with_nz(m.regs.status, m.regs.x),
                        ..m.regs
                    },
                ),
                // TXS
                0x9A => step_regs(m, Registers { stack_pointer: m.regs.x, ..m.regs }),
                // TYA
                0x98 => step_regs(
                    m,
                    Registers {
                        a: m.regs.y,
                        status: with_nz(m.regs.status, m.regs.y),
                        ..m.regs
                    },
                ),
                // PHA / PHP / PLA / PLP
                0x48 => eff_pha(m),
                0x08 => eff_php(m),
                0x68 => eff_pla(m),
                0x28 => eff_plp(m),
                // DEC
                0xC6 | 0xD6 | 0xCE | 0xDE => match moperand_resolve(m, mode) {
                    Err(f) => step_fault(m, f),
                    Ok(a) => eff_dec(m, a),
                },
                // DEX
                0xCA => step_regs(
                    m,
                    Registers {
                        x: u8_specs::wrapping_sub(m.regs.x, 1),
                        status: with_nz(m.regs.status, u8_specs::wrapping_sub(m.regs.x, 1)),
                        ..m.regs
                    },
                ),
                // DEY
                0x88 => step_regs(
                    m,
                    Registers {
                        y: u8_specs::wrapping_sub(m.regs.y, 1),
                        status: with_nz(m.regs.status, u8_specs::wrapping_sub(m.regs.y, 1)),
                        ..m.regs
                    },
                ),
                // INC
                0xE6 | 0xF6 | 0xEE | 0xFE => match moperand_resolve(m, mode) {
                    Err(f) => step_fault(m, f),
                    Ok(a) => eff_inc(m, a),
                },
                // INX
                0xE8 => step_regs(
                    m,
                    Registers {
                        x: u8_specs::wrapping_add(m.regs.x, 1),
                        status: with_nz(m.regs.status, u8_specs::wrapping_add(m.regs.x, 1)),
                        ..m.regs
                    },
                ),
                // INY
                0xC8 => step_regs(
                    m,
                    Registers {
                        y: u8_specs::wrapping_add(m.regs.y, 1),
                        status: with_nz(m.regs.status, u8_specs::wrapping_add(m.regs.y, 1)),
                        ..m.regs
                    },
                ),
                // ADC
                0x69 | 0x65 | 0x75 | 0x6D | 0x7D | 0x79 | 0x61 | 0x71 => match moperand_resolve(
                    m,
                    mode,
                ) {
                    Err(f) => step_fault(m, f),
                    Ok(a) => eff_adc(m, a),
                },
                // SBC and its undocumented twin
                0xE9 | 0xE5 | 0xF5 | 0xED | 0xFD | 0xF9 | 0xE1 | 0xF1 | 0xEB => match
                    moperand_resolve(m, mode) {
                    Err(f) => step_fault(m, f),
                    Ok(a) => eff_sbc(m, a),
                },
                // AND
                0x29 | 0x25 | 0x35 | 0x2D | 0x3D | 0x39 | 0x21 | 0x31 => match moperand_resolve(
                    m,
                    mode,
                ) {
                    Err(f) => step_fault(m, f),
                    Ok(a) => eff_and(m, a),
                },
                // EOR
                0x49 | 0x45 | 0x55 | 0x4D | 0x5D | 0x59 | 0x41 | 0x51 => match moperand_resolve(
                    m,
                    mode,
                ) {
                    Err(f) => step_fault(m, f),
                    Ok(a) => eff_eor(m, a),
                },
                // ORA
                0x09 | 0x05 | 0x15 | 0x0D | 0x1D | 0x19 | 0x01 | 0x11 => match moperand_resolve(
                    m,
                    mode,
                ) {
                    Err(f) => step_fault(m, f),
                    Ok(a) => eff_ora(m, a),
                },
                // ASL
                0x0A => step_regs(
                    m,
                    Registers {
                        a: m.regs.a << 1,
                        status: with_nz(
                            set_bit(m.regs.status, CARRY, m.regs.a & 0x80 == 0x80),
                            m.regs.a << 1,
                        ),
                        ..m.regs
                    },
                ),
                0x06 | 0x16 | 0x0E | 0x1E => match moperand_resolve(m, mode) {
                    Err(f) => step_fault(m, f),
                    Ok(a) => eff_asl_mem(m, a),
                },
                // LSR
                0x4A => step_regs(
                    m,
                    Registers {
                        a: m.regs.a >> 1,
                        status: with_nz(
                            set_bit(m.regs.status, CARRY, m.regs.a & 0x01 == 0x01),
                            m.regs.a >> 1,
                        ),
                        ..m.regs
                    },
                ),
                0x46 | 0x56 | 0x4E | 0x5E => match moperand_resolve(m, mode) {
                    Err(f) => step_fault(m, f),
                    Ok(a) => eff_lsr_mem(m, a),
                },
                // ROL
                0x2A => {
                    let rotated = (m.regs.a << 1) | (if has_flag(m.regs.status, CARRY) {
                        0x01u8
                    } else {
                        0x00u8
                    });
                    step_regs(
                        m,
                        Registers {
                            a: rotated,
                            status: with_nz(
                                set_bit(m.regs.status, CARRY, m.regs.a & 0x80 == 0x80),
                                rotated,
                            ),
                            ..m.regs
                        },
                    )
                },
                0x26 | 0x36 | 0x2E | 0x3E => match moperand_resolve(m, mode) {
                    Err(f) => step_fault(m, f),
                    Ok(a) => eff_rol_mem(m, a),
                },
                // ROR
                0x6A => {
                    let rotated = (m.regs.a >> 1) | (if has_flag(m.regs.status, CARRY) {
                        0x80u8
                    } else {
                        0x00u8
                    });
                    step_regs(
                        m,
                        Registers {
                            a: rotated,
                            status: with_nz(
                                set_bit(m.regs.status, CARRY, m.regs.a & 0x01 == 0x01),
                                rotated,
                            ),
                            ..m.regs
                        },
                    )
                },
                0x66 | 0x76 | 0x6E | 0x7E => match moperand_resolve(m, mode) {
                    Err(f) => step_fault(m, f),
                    Ok(a) => eff_ror_mem(m, a),
                },
                // Flag instructions
                0x18 => step_regs(m, Registers { status: set_bit(m.regs.status, CARRY, false), ..m.regs }),
                0xD8 => step_regs(m, Registers { status: set_bit(m.regs.status, DECIMAL, false), ..m.regs }),
                0x58 => step_regs(
                    m,
                    Registers { status: set_bit(m.regs.status, INTERRUPT_DISABLE, false), ..m.regs },
                ),
                0xB8 => step_regs(m, Registers { status: set_bit(m.regs.status, OVERFLOW, false), ..m.regs }),
                0x38 => step_regs(m, Registers { status: set_bit(m.regs.status, CARRY, true), ..m.regs }),
                0xF8 => step_regs(m, Registers { status: set_bit(m.regs.status, DECIMAL, true), ..m.regs }),
                0x78 => step_regs(
                    m,
                    Registers { status: set_bit(m.regs.status, INTERRUPT_DISABLE, true), ..m.regs },
                ),
                // CMP
                0xC9 | 0xC5 | 0xD5 | 0xCD | 0xDD | 0xD9 | 0xC1 | 0xD1 => match moperand_resolve(
                    m,
                    mode,
                ) {
                    Err(f) => step_fault(m, f),
                    Ok(a) => eff_cmp(m, a, m.regs.a),
                },
                // CPX
                0xE0 | 0xE4 | 0xEC => match moperand_resolve(m, mode) {
                    Err(f) => step_fault(m, f),
                    Ok(a) => eff_cmp(m, a, m.regs.x),
                },
                // CPY
                0xC0 | 0xC4 | 0xCC => match moperand_resolve(m, mode) {
                    Err(f) => step_fault(m, f),
                    Ok(a) => eff_cmp(m, a, m.regs.y),
                },
                // Branches
                0x90 => eff_branch(m, !has_flag(m.regs.status, CARRY)),
                0xB0 => eff_branch(m, has_flag(m.regs.status, CARRY)),
                0xF0 => eff_branch(m, has_flag(m.regs.status, ZERO)),
                0x30 => eff_branch(m, has_flag(m.regs.status, NEGATIVE)),
                0xD0 => eff_branch(m, !has_flag(m.regs.status, ZERO)),
                0x10 => eff_branch(m, !has_flag(m.regs.status, NEGATIVE)),
                0x50 => eff_branch(m, !has_flag(m.regs.status, OVERFLOW)),
                0x70 => eff_branch(m, has_flag(m.regs.status, OVERFLOW)),
                // JMP
                0x4C | 0x6C => match moperand_resolve(m, mode) {
                    Err(f) => step_fault(m, f),
                    Ok(a) => step_regs(m, Registers { program_counter: a, ..m.regs }),
                },
                // JSR / RTS / RTI
                0x20 => eff_jsr(m),
                0x60 => eff_rts(m),
                0x40 => eff_rti(m),
                // BIT
                0x24 | 0x2C => match moperand_resolve(m, mode) {
                    Err(f) => step_fault(m, f),
                    Ok(a) => eff_bit(m, a),
                },
                // ALR
                0x4B => match moperand_resolve(m, mode) {
                    Err(f) => step_fault(m, f),
                    Ok(a) => eff_alr(m, a),
                },
                // ANC
                0x0B | 0x2B => match moperand_resolve(m, mode) {
                    Err(f) => step_fault(m, f),
                    Ok(a) => eff_anc(m, a),
                },
                // ANE
                0x8B => match moperand_resolve(m, mode) {
                    Err(f) => step_fault(m, f),
                    Ok(a) => eff_ane(m, a),
                },
                // DCP
                0xC7 | 0xD7 | 0xCF | 0xDF | 0xDB | 0xC3 | 0xD3 => match moperand_resolve(
                    m,
                    mode,
                ) {
                    Err(f) => step_fault(m, f),
                    Ok(a) => eff_dcp(m, a),
                },
                // ISC
                0xE7 | 0xF7 | 0xEF | 0xFF | 0xFB | 0xE3 | 0xF3 => match moperand_resolve(
                    m,
                    mode,
                ) {
                    Err(f) => step_fault(m, f),
                    Ok(a) => eff_isc(m, a),
                },
                // LAS
                0xBB => match moperand_resolve(m, mode) {
                    Err(f) => step_fault(m, f),
                    Ok(a) => eff_las(m, a),
                },
                // LAX
                0xA7 | 0xB7 | 0xAF | 0xBF | 0xA3 | 0xB3 => match moperand_resolve(m, mode) {
                    Err(f) => step_fault(m, f),
                    Ok(a) => eff_lax(m, a),
                },
                // RLA
                0x27 | 0x37 | 0x2F | 0x3F | 0x3B | 0x23 | 0x33 => match moperand_resolve(
                    m,
                    mode,
                ) {
                    Err(f) => step_fault(m, f),
                    Ok(a) => eff_rla(m, a),
                },
                // RRA
                0x67 | 0x77 | 0x6F | 0x7F | 0x7B | 0x63 | 0x73 => match moperand_resolve(
                    m,
                    mode,
                ) {
                    Err(f) => step_fault(m, f),
                    Ok(a) => eff_rra(m, a),
                },
                // SAX
                0x87 | 0x97 | 0x8F | 0x83 => match moperand_resolve(m, mode) {
                    Err(f) => step_fault(m, f),
                    Ok(a) => eff_store(m, a, m.regs.a & m.regs.x),
                },
                // SLO
                0x07 | 0x17 | 0x0F | 0x1F | 0x1B | 0x03 | 0x13 => match moperand_resolve(
                    m,
                    mode,
                ) {
                    Err(f) => step_fault(m, f),
                    Ok(a) => eff_slo(m, a),
                },
                // SRE
                0x47 | 0x57 | 0x4F | 0x5F | 0x5B | 0x43 | 0x53 => match moperand_resolve(
                    m,
                    mode,
                ) {
                    Err(f) => step_fault(m, f),
                    Ok(a) => eff_sre(m, a),
                },
                // Every NOP form, and the unreachable remainder.
                _ => MachineStep { machine: m, result: Ok(true) },
            }
        },
    }
}

/// One whole fetch-decode-execute iteration on machine `m`: fetch at the
/// program counter (fatal inside the PPU window), advance past the
/// opcode, look it up (fatal when absent), halt on BRK, else run the
/// instruction and advance over its operand bytes unless the body
/// already redirected control flow.
pub open spec fn spec_step(m: Machine) -> MachineStep {
    let pc = m.regs.program_counter;
    if in_ppu_window(pc) {
        MachineStep { machine: m, result: Err(Fault::PpuRead { address: pc }) }
    } else {
        let code = mread(m, pc);
        let m1 = Machine {
            regs: Registers { program_counter: u16_specs::wrapping_add(pc, 1), ..m.regs },
            ..m
        };
        match spec_decode(code) {
            None => MachineStep {
                machine: m1,
                result: Err(Fault::UnrecognizedOpcode { opcode: code, address: pc }),
            },
            Some(info) => if code == 0x00 {
                MachineStep { machine: m1, result: Ok(false) }
            } else {
                let ex = spec_execute(m1, code);
                match ex.result {
                    Err(f) => ex,
                    _ => {
                        let m2 = ex.machine;
                        let m3 = if m2.regs.program_counter == m1.regs.program_counter {
                            Machine {
                                regs: Registers {
                                    program_counter: u16_specs::wrapping_add(
                                        m2.regs.program_counter,
                                        (info.length - 1) as u16,
                                    ),
                                    ..m2.regs
                                },
                                ..m2
                            }
                        } else {
                            m2
                        };
                        MachineStep { machine: m3, result: Ok(true) }
                    },
                }
            },
        }
    }
}

/// The run loop's semantics: iterate `spec_step` until BRK halts it, a
/// fault surfaces, or the step budget runs out (which stops the loop
/// like a halt would).
pub open spec fn spec_run(m: Machine, fuel: nat) -> RunOutcome
    decreases fuel,
{
    if fuel == 0 {
        RunOutcome { machine: m, result: Ok(()) }
    } else {
        let s = spec_step(m);
        match s.result {
            Err(f) => RunOutcome { machine: s.machine, result: Err(f) },
            Ok(false) => RunOutcome { machine: s.machine, result: Ok(()) },
            _ => spec_run(s.machine, (fuel - 1) as nat),
        }
    }
}

/// The run loop's step budget, far beyond any physically reachable
/// execution length.
pub const RUN_FUEL: u64 = 0xFFFF_FFFF_FFFF_FFFF;

/// RAM contents after an embedded program is copied into the window at
/// 0x0600.
pub open spec fn ram_with_program(ram: Seq<u8>, program: Seq<u8>) -> Seq<u8> {
    Seq::new(
        ram.len(),
        |i: int|
            if 0x600 <= i < 0x600 + program.len() {
                program[i - 0x600]
            } else {
                ram[i]
            },
    )
}

/// The stack page address for stack pointer value `sp`.
pub open spec fn stack_addr(sp: u8) -> u16 {
    (0x0100 + sp) as u16
}

/// The stack page lies entirely in internal RAM, below the mirror bound.
proof fn lemma_stack_addr(sp: u8)
    by (bit_vector)
    ensures
        (((0x0100 + sp as u16) as u16) & 0x07FF) == (0x0100 + sp as u16),
        (0x0100 + sp as u16) < 0x2000,
{
}

impl CPU {
    /// The bus can serve every decodable address.
    pub open spec fn wf(self) -> bool {
        self.bus.wf()
    }

    /// The byte a bus read yields at `address` (outside the PPU window).
    pub open spec fn mem(self, address: u16) -> u8 {
        mread(machine_of(self), address)
    }

    /// The little-endian word read at `address` and its wrapping
    /// successor.
    pub open spec fn mem16(self, address: u16) -> u16 {
        word(self.mem(address), self.mem(u16_specs::wrapping_add(address, 1)))
    }

    /// A fresh CPU over `bus`, registers in their power-on state.
    pub fn new(bus: Bus) -> (r: CPU)
        ensures
            r.bus == bus,
            r.registers == (Registers {
                a: 0,
                x: 0,
                y: 0,
                status: 0x24,
                stack_pointer: 0xFD,
                program_counter: 0,
            }),
    {
        CPU { bus, registers: Registers::new() }
    }

    /// Resolves `mode` against the operand bytes at `address` without
    /// touching any state; `Immediate` and `Implicit` carry no address to
    /// resolve.
    pub fn get_absolute_address(&self, mode: AddressingMode, address: u16) -> (r: Result<
        u16,
        Fault,
    >)
        requires
            self.wf(),
            mode != AddressingMode::Immediate,
            mode != AddressingMode::Implicit,
        ensures
            r == mresolve(machine_of(*self), mode, address),
    {
        match mode {
            AddressingMode::Absolute => self.bus.read_u16(address),
            AddressingMode::AbsoluteX => {
                let base = self.bus.read_u16(address)?;
                Ok(base.wrapping_add(self.registers.x as u16))
            },
            AddressingMode::AbsoluteY => {
                let base = self.bus.read_u16(address)?;
                Ok(base.wrapping_add(self.registers.y as u16))
            },
            AddressingMode::ZeroPage => {
                let b = self.bus.read(address)?;
                Ok(b as u16)
            },
            AddressingMode::ZeroPageX => {
                let b = self.bus.read(address)?;
                Ok(b.wrapping_add(self.registers.x) as u16)
            },
            AddressingMode::ZeroPageY => {
                let b = self.bus.read(address)?;
                Ok(b.wrapping_add(self.registers.y) as u16)
            },
            AddressingMode::Indirect => {
                let indirect_address = self.bus.read_u16(address)?;
                if indirect_address & 0x00FF == 0x00FF {
                    let lo = self.bus.read(indirect_address)?;
                    let hi = self.bus.read(indirect_address & 0xFF00)?;
                    Ok(make_word(lo, hi))
                } else {
                    self.bus.read_u16(indirect_address)
                }
            },
            AddressingMode::IndexedIndirect => {
                let base = self.bus.read(address)?;
                let pointer = base.wrapping_add(self.registers.x);
                let lo = self.bus.read(pointer as u16)?;
                let hi = self.bus.read(pointer.wrapping_add(1) as u16)?;
                Ok(make_word(lo, hi))
            },
            AddressingMode::IndirectIndexed => {
                let param = self.bus.read(address)?;
                let lo = self.bus.read(param as u16)?;
                let hi = self.bus.read(param.wrapping_add(1) as u16)?;
                Ok(make_word(lo, hi).wrapping_add(self.registers.y as u16))
            },
            AddressingMode::Immediate | AddressingMode::Implicit => {
                vstd::pervasive::unreached()
            },
        }
    }

    /// Resolves the operand address of the current instruction.
    pub fn get_operand_address(&self, mode: AddressingMode) -> (r: Result<u16, Fault>)
        requires
            self.wf(),
            mode != AddressingMode::Implicit,
        ensures
            r == moperand_resolve(machine_of(*self), mode),
    {
        match mode {
            AddressingMode::Immediate => Ok(self.registers.program_counter),
            _ => self.get_absolute_address(mode, self.registers.program_counter),
        }
    }

    /// Pushes one byte onto the stack page and moves the stack pointer
    /// down, wrapping within the page. Stack accesses always land in
    /// internal RAM and never fault.
    pub fn stack_push(&mut self, data: u8)
        requires
            old(self).wf(),
        ensures
            final(self).wf(),
            frame(*old(self), *final(self)),
            final(self).bus.cpu_vram@ == old(self).bus.cpu_vram@.update(
                0x0100 + old(self).registers.stack_pointer as int,
                data,
            ),
            final(self).registers == (Registers {
                stack_pointer: u8_specs::wrapping_sub(old(self).registers.stack_pointer, 1),
                ..old(self).registers
            }),
    {
        proof {
            lemma_stack_addr(self.registers.stack_pointer);
        }
        let address: u16 = 0x0100 + (self.registers.stack_pointer as u16);
        match self.bus.write(address, data) {
            Ok(_) => {},
            Err(_) => {
                proof {
                    assert(false);
                }
            },
        }
        self.registers.stack_pointer = self.registers.stack_pointer.wrapping_sub(1);
    }

    /// Moves the stack pointer up, wrapping within the page, and reads
    /// the byte it then points at.
    pub fn stack_pop(&mut self) -> (r: u8)
        requires
            old(self).wf(),
        ensures
            final(self).wf(),
            frame(*old(self), *final(self)),
            final(self).bus == old(self).bus,
            final(self).registers == (Registers {
                stack_pointer: u8_specs::wrapping_add(old(self).registers.stack_pointer, 1),
                ..old(self).registers
            }),
            r == old(self).mem(
                stack_addr(u8_specs::wrapping_add(old(self).registers.stack_pointer, 1)),
            ),
    {
        self.registers.stack_pointer = self.registers.stack_pointer.wrapping_add(1);
        proof {
            lemma_stack_addr(self.registers.stack_pointer);
        }
        let address: u16 = 0x0100 + (self.registers.stack_pointer as u16);
        match self.bus.read(address) {
            Ok(v) => v,
            Err(_) => vstd::pervasive::unreached(),
        }
    }

    /// Pushes a 16-bit value: high byte first, then the low byte.
    pub fn stack_push_u16(&mut self, data: u16)
        requires
            old(self).wf(),
        ensures
            final(self).wf(),
            frame(*old(self), *final(self)),
            final(self).bus.cpu_vram@ == old(self).bus.cpu_vram@.update(
                0x0100 + old(self).registers.stack_pointer as int,
                hi_byte(data),
            ).update(
                0x0100 + u8_specs::wrapping_sub(old(self).registers.stack_pointer, 1) as int,
                lo_byte(data),
            ),
            final(self).registers == (Registers {
                stack_pointer: u8_specs::wrapping_sub(
                    u8_specs::wrapping_sub(old(self).registers.stack_pointer, 1),
                    1,
                ),
                ..old(self).registers
            }),
    {
        let hi = word_hi(data);
        let lo = word_lo(data);
        self.stack_push(hi);
        self.stack_push(lo);
    }

    /// Pulls a 16-bit value: low byte first, then the high byte.
    pub fn stack_pop_u16(&mut self) -> (r: u16)
        requires
            old(self).wf(),
        ensures
            final(self).wf(),
            frame(*old(self), *final(self)),
            final(self).bus == old(self).bus,
            final(self).registers == (Registers {
                stack_pointer: u8_specs::wrapping_add(
                    u8_specs::wrapping_add(old(self).registers.stack_pointer, 1),
                    1,
                ),
                ..old(self).registers
            }),
            r == word(
                old(self).mem(
                    stack_addr(u8_specs::wrapping_add(old(self).registers.stack_pointer, 1)),
                ),
                old(self).mem(
                    stack_addr(
                        u8_specs::wrapping_add(
                            u8_specs::wrapping_add(old(self).registers.stack_pointer, 1),
                            1,
                        ),
                    ),
                ),
            ),
    {
        let lo = self.stack_pop();
        let hi = self.stack_pop();
        make_word(lo, hi)
    }

    /// LDA: loads the accumulator from memory and updates Zero/Negative.
    pub fn load_accumulator_with_memory(&mut self, address: u16) -> (r: Result<(), Fault>)
        requires
            old(self).wf(),
        ensures
            final(self).wf(),
            frame(*old(self), *final(self)),
            final(self).bus == old(self).bus,
            r is Ok <==> !in_ppu_window(address),
            (r is Err ==> *final(self) == *old(self) && r == Err::<(), Fault>(
                Fault::PpuRead { address },
            )),
            (r is Ok ==> final(self).registers == (Registers {
                a: old(self).mem(address),
                status: with_nz(old(self).registers.status, old(self).mem(address)),
                ..old(self).registers
            })),
    {
        let data = self.bus.read(address)?;
        self.registers.a = data;
        self.registers.set_nz_flags(data);
        Ok(())
    }

    /// LDX: loads the X index from memory and updates Zero/Negative.
    pub fn load_index_x_with_memory(&mut self, address: u16) -> (r: Result<(), Fault>)
        requires
            old(self).wf(),
        ensures
            final(self).wf(),
            frame(*old(self), *final(self)),
            final(self).bus == old(self).bus,
            r is Ok <==> !in_ppu_window(address),
            (r is Err ==> *final(self) == *old(self) && r == Err::<(), Fault>(
                Fault::PpuRead { address },
            )),
            (r is Ok ==> final(self).registers == (Registers {
                x: old(self).mem(address),
                status: with_nz(old(self).registers.status, old(self).mem(address)),
                ..old(self).registers
            })),
    {
        let data = self.bus.read(address)?;
        self.registers.x = data;
        self.registers.set_nz_flags(data);
        Ok(())
    }

    /// LDY: loads the Y index from memory and updates Zero/Negative.
    pub fn load_index_y_with_memory(&mut self, address: u16) -> (r: Result<(), Fault>)
        requires
            old(self).wf(),
        ensures
            final(self).wf(),
            frame(*old(self), *final(self)),
            final(self).bus == old(self).bus,
            r is Ok <==> !in_ppu_window(address),
            (r is Err ==> *final(self) == *old(self) && r == Err::<(), Fault>(
                Fault::PpuRead { address },
            )),
            (r is Ok ==> final(self).registers == (Registers {
                y: old(self).mem(address),
                status: with_nz(old(self).registers.status, old(self).mem(address)),
                ..old(self).registers
            })),
    {
        let data = self.bus.read(address)?;
        self.registers.y = data;
        self.registers.set_nz_flags(data);
        Ok(())
    }

    /// STA: stores the accumulator. No flags change; a write into the ROM
    /// or PPU window is fatal, an out-of-range write is dropped.
    pub fn store_accumulator_in_memory(&mut self, address: u16) -> (r: Result<(), Fault>)
        requires
            old(self).wf(),
        ensures
            final(self).wf(),
            frame(*old(self), *final(self)),
            final(self).registers == old(self).registers,
            r is Ok <==> write_ok(address),
            (r is Ok ==> final(self).bus.cpu_vram@ == ram_after_write(
                old(self).bus.cpu_vram@,
                address,
                old(self).registers.a,
            )),
            (r is Err ==> final(self).bus.cpu_vram@ == old(self).bus.cpu_vram@),
            (in_ppu_window(address) ==> r == Err::<(), Fault>(Fault::PpuWrite { address })),
            (address >= 0x8000 ==> r == Err::<(), Fault>(Fault::RomWrite { address })),
    {
        self.bus.write(address, self.registers.a)?;
        Ok(())
    }

    /// STX: stores the X index.
    pub fn store_index_x_in_memory(&mut self, address: u16) -> (r: Result<(), Fault>)
        requires
            old(self).wf(),
        ensures
            final(self).wf(),
            frame(*old(self), *final(self)),
            final(self).registers == old(self).registers,
            r is Ok <==> write_ok(address),
            (r is Ok ==> final(self).bus.cpu_vram@ == ram_after_write(
                old(self).bus.cpu_vram@,
                address,
                old(self).registers.x,
            )),
            (r is Err ==> final(self).bus.cpu_vram@ == old(self).bus.cpu_vram@),
            (in_ppu_window(address) ==> r == Err::<(), Fault>(Fault::PpuWrite { address })),
            (address >= 0x8000 ==> r == Err::<(), Fault>(Fault::RomWrite { address })),
    {
        self.bus.write(address, self.registers.x)?;
        Ok(())
    }

    /// STY: stores the Y index.
    pub fn store_index_y_in_memory(&mut self, address: u16) -> (r: Result<(), Fault>)
        requires
            old(self).wf(),
        ensures
            final(self).wf(),
            frame(*old(self), *final(self)),
            final(self).registers == old(self).registers,
            r is Ok <==> write_ok(address),
            (r is Ok ==> final(self).bus.cpu_vram@ == ram_after_write(
                old(self).bus.cpu_vram@,
                address,
                old(self).registers.y,
            )),
            (r is Err ==> final(self).bus.cpu_vram@ == old(self).bus.cpu_vram@),
            (in_ppu_window(address) ==> r == Err::<(), Fault>(Fault::PpuWrite { address })),
            (address >= 0x8000 ==> r == Err::<(), Fault>(Fault::RomWrite { address })),
    {
        self.bus.write(address, self.registers.y)?;
        Ok(())
    }

    /// TAX: X takes the accumulator, with a Zero/Negative update.
    pub fn transfer_accumulator_to_index_x(&mut self)
        ensures
            final(self).bus == old(self).bus,
            final(self).registers == (Registers {
                x: old(self).registers.a,
                status: with_nz(old(self).registers.status, old(self).registers.a),
                ..old(self).registers
            }),
    {
        self.registers.x = self.registers.a;
        self.registers.set_nz_flags(self.registers.x);
    }

    /// TAY: Y takes the accumulator, with a Zero/Negative update.
    pub fn transfer_accumulator_to_index_y(&mut self)
        ensures
            final(self).bus == old(self).bus,
            final(self).registers == (Registers {
                y: old(self).registers.a,
                status: with_nz(old(self).registers.status, old(self).registers.a),
                ..old(self).registers
            }),
    {
        self.registers.y = self.registers.a;
        self.registers.set_nz_flags(self.registers.y);
    }

    /// TSX: X takes the stack pointer, with a Zero/Negative update.
    pub fn transfer_stack_pointer_to_index_x(&mut self)
        ensures
            final(self).bus == old(self).bus,
            final(self).registers == (Registers {
                x: old(self).registers.stack_pointer,
                status: with_nz(old(self).registers.status, old(self).registers.stack_pointer),
                ..old(self).registers
            }),
    {
        self.registers.x = self.registers.stack_pointer;
        self.registers.set_nz_flags(self.registers.x);
    }

    /// TXA: the accumulator takes X, with a Zero/Negative update.
    pub fn transfer_index_x_to_accumulator(&mut self)
        ensures
            final(self).bus == old(self).bus,
            final(self).registers == (Registers {
                a: old(self).registers.x,
                status: with_nz(old(self).registers.status, old(self).registers.x),
                ..old(self).registers
            }),
    {
        self.registers.a = self.registers.x;
        self.registers.set_nz_flags(self.registers.a);
    }

    /// TXS: the stack pointer takes X; no flags change.
    pub fn transfer_index_x_to_stack_register(&mut self)
        ensures
            final(self).bus == old(self).bus,
            final(self).registers == (Registers {
                stack_pointer: old(self).registers.x,
                ..old(self).registers
            }),
    {
        self.registers.stack_pointer = self.registers.x;
    }

    /// TYA: the accumulator takes Y, with a Zero/Negative update.
    pub fn transfer_index_y_to_accumulator(&mut self)
        ensures
            final(self).bus == old(self).bus,
            final(self).registers == (Registers {
                a: old(self).registers.y,
                status: with_nz(old(self).registers.status, old(self).registers.y),
                ..old(self).registers
            }),
    {
        self.registers.a = self.registers.y;
        self.registers.set_nz_flags(self.registers.a);
    }

    /// PHA: pushes the accumulator.
    pub fn push_accumulator_on_stack(&mut self)
        requires
            old(self).wf(),
        ensures
            final(self).wf(),
            frame(*old(self), *final(self)),
            final(self).bus.cpu_vram@ == old(self).bus.cpu_vram@.update(
                0x0100 + old(self).registers.stack_pointer as int,
                old(self).registers.a,
            ),
            final(self).registers == (Registers {
                stack_pointer: u8_specs::wrapping_sub(old(self).registers.stack_pointer, 1),
                ..old(self).registers
            }),
    {
        self.stack_push(self.registers.a);
    }

    /// PHP: pushes a copy of the status with Break and Unused forced set;
    /// the live status register keeps its own Break/Unused bits.
    pub fn push_processor_status_on_stack(&mut self)
        requires
            old(self).wf(),
        ensures
            final(self).wf(),
            frame(*old(self), *final(self)),
            final(self).bus.cpu_vram@ == old(self).bus.cpu_vram@.update(
                0x0100 + old(self).registers.stack_pointer as int,
                set_bit(set_bit(old(self).registers.status, BREAK, true), UNUSED, true),
            ),
            final(self).registers == (Registers {
                stack_pointer: u8_specs::wrapping_sub(old(self).registers.stack_pointer, 1),
                ..old(self).registers
            }),
    {
        let status = (self.registers.status | BREAK) | UNUSED;
        self.stack_push(status);
    }

    /// PLA: pulls the accumulator, with a Zero/Negative update.
    pub fn pull_accumulator_from_stack(&mut self)
        requires
            old(self).wf(),
        ensures
            final(self).wf(),
            frame(*old(self), *final(self)),
            final(self).bus == old(self).bus,
            ({
                let popped = old(self).mem(
                    stack_addr(u8_specs::wrapping_add(old(self).registers.stack_pointer, 1)),
                );
                final(self).registers == (Registers {
                    a: popped,
                    status: with_nz(old(self).registers.status, popped),
                    stack_pointer: u8_specs::wrapping_add(old(self).registers.stack_pointer, 1),
                    ..old(self).registers
                })
            }),
    {
        let data = self.stack_pop();
        self.registers.a = data;
        self.registers.set_nz_flags(data);
    }

    /// PLP: pulls the status; the restored value always has Break cleared
    /// and Unused set, whatever was stored. Every byte maps onto the
    /// eight defined flags, so the pull itself cannot fail.
    pub fn pull_processor_status_from_stack(&mut self)
        requires
            old(self).wf(),
        ensures
            final(self).wf(),
            frame(*old(self), *final(self)),
            final(self).bus == old(self).bus,
            ({
                let popped = old(self).mem(
                    stack_addr(u8_specs::wrapping_add(old(self).registers.stack_pointer, 1)),
                );
                final(self).registers == (Registers {
                    status: set_bit(set_bit(popped, BREAK, false), UNUSED, true),
                    stack_pointer: u8_specs::wrapping_add(old(self).registers.stack_pointer, 1),
                    ..old(self).registers
                })
            }),
    {
        let data = self.stack_pop();
        self.registers.status = (data & !BREAK) | UNUSED;
    }

    /// DEC: decrements a memory byte with 8-bit wraparound and updates
    /// Zero/Negative from the new value.
    pub fn decrement_memory_by_one(&mut self, address: u16) -> (r: Result<(), Fault>)
        requires
            old(self).wf(),
        ensures
            final(self).wf(),
            frame(*old(self), *final(self)),
            r is Ok <==> write_ok(address),
            (r is Err ==> final(self).bus.cpu_vram@ == old(self).bus.cpu_vram@ && final(self).registers == old(self).registers),
            (in_ppu_window(address) ==> r == Err::<(), Fault>(Fault::PpuRead { address })),
            (address >= 0x8000 ==> r == Err::<(), Fault>(Fault::RomWrite { address })),
            (r is Ok ==> ({
                let data = u8_specs::wrapping_sub(old(self).mem(address), 1);
                &&& final(self).bus.cpu_vram@ == ram_after_write(
                    old(self).bus.cpu_vram@,
                    address,
                    data,
                )
                &&& final(self).registers == (Registers {
                    status: with_nz(old(self).registers.status, data),
                    ..old(self).registers
                })
            })),
    {
        let data = self.bus.read(address)?;
        let data = data.wrapping_sub(1);
        self.bus.write(address, data)?;
        self.registers.set_nz_flags(data);
        Ok(())
    }

    /// DEX: decrements X with 8-bit wraparound, updating Zero/Negative.
    pub fn decrement_index_x_by_one(&mut self)
        ensures
            final(self).bus == old(self).bus,
            final(self).registers == (Registers {
                x: u8_specs::wrapping_sub(old(self).registers.x, 1),
                status: with_nz(
                    old(self).registers.status,
                    u8_specs::wrapping_sub(old(self).registers.x, 1),
                ),
                ..old(self).registers
            }),
    {
        self.registers.x = self.registers.x.wrapping_sub(1);
        self.registers.set_nz_flags(self.registers.x);
    }

    /// DEY: decrements Y with 8-bit wraparound, updating Zero/Negative.
    pub fn decrement_index_y_by_one(&mut self)
        ensures
            final(self).bus == old(self).bus,
            final(self).registers == (Registers {
                y: u8_specs::wrapping_sub(old(self).registers.y, 1),
                status: with_nz(
                    old(self).registers.status,
                    u8_specs::wrapping_sub(old(self).registers.y, 1),
                ),
                ..old(self).registers
            }),
    {
        self.registers.y = self.registers.y.wrapping_sub(1);
        self.registers.set_nz_flags(self.registers.y);
    }

    /// INC: increments a memory byte with 8-bit wraparound, updates
    /// Zero/Negative, and hands the new value back.
    pub fn increment_memory_by_one(&mut self, address: u16) -> (r: Result<u8, Fault>)
        requires
            old(self).wf(),
        ensures
            final(self).wf(),
            frame(*old(self), *final(self)),
            r is Ok <==> write_ok(address),
            (r is Err ==> final(self).bus.cpu_vram@ == old(self).bus.cpu_vram@ && final(self).registers == old(self).registers),
            (in_ppu_window(address) ==> r == Err::<u8, Fault>(Fault::PpuRead { address })),
            (address >= 0x8000 ==> r == Err::<u8, Fault>(Fault::RomWrite { address })),
            (r is Ok ==> ({
                let data = u8_specs::wrapping_add(old(self).mem(address), 1);
                &&& r == Ok::<u8, Fault>(data)
                &&& final(self).bus.cpu_vram@ == ram_after_write(
                    old(self).bus.cpu_vram@,
                    address,
                    data,
                )
                &&& final(self).registers == (Registers {
                    status: with_nz(old(self).registers.status, data),
                    ..old(self).registers
                })
            })),
    {
        let data = self.bus.read(address)?;
        let data = data.wrapping_add(1);
        self.bus.write(address, data)?;
        self.registers.set_nz_flags(data);
        Ok(data)
    }

    /// INX: increments X with 8-bit wraparound, updating Zero/Negative.
    pub fn increment_index_x_by_one(&mut self)
        ensures
            final(self).bus == old(self).bus,
            final(self).registers == (Registers {
                x: u8_specs::wrapping_add(old(self).registers.x, 1),
                status: with_nz(
                    old(self).registers.status,
                    u8_specs::wrapping_add(old(self).registers.x, 1),
                ),
                ..old(self).registers
            }),
    {
        self.registers.x = self.registers.x.wrapping_add(1);
        self.registers.set_nz_flags(self.registers.x);
    }

    /// INY: increments Y with 8-bit wraparound, updating Zero/Negative.
    pub fn increment_index_y_by_one(&mut self)
        ensures
            final(self).bus == old(self).bus,
            final(self).registers == (Registers {
                y: u8_specs::wrapping_add(old(self).registers.y, 1),
                status: with_nz(
                    old(self).registers.status,
                    u8_specs::wrapping_add(old(self).registers.y, 1),
                ),
                ..old(self).registers
            }),
    {
        self.registers.y = self.registers.y.wrapping_add(1);
        self.registers.set_nz_flags(self.registers.y);
    }

    /// ADC: adds a memory byte and the incoming Carry into the
    /// accumulator, with the full Carry/Overflow/Zero/Negative update.
    pub fn add_memory_to_accumulator_with_carry(&mut self, address: u16) -> (r: Result<(), Fault>)
        requires
            old(self).wf(),
        ensures
            final(self).wf(),
            frame(*old(self), *final(self)),
            final(self).bus == old(self).bus,
            r is Ok <==> !in_ppu_window(address),
            (r is Err ==> *final(self) == *old(self) && r == Err::<(), Fault>(
                Fault::PpuRead { address },
            )),
            (r is Ok ==> final(self).registers == (Registers {
                a: add_result(
                    old(self).registers.a,
                    old(self).mem(address),
                    old(self).registers.status,
                ),
                status: add_status(
                    old(self).registers.a,
                    old(self).mem(address),
                    old(self).registers.status,
                ),
                ..old(self).registers
            })),
    {
        let data = self.bus.read(address)?;
        self.registers.add_to_a(data);
        Ok(())
    }

    /// SBC: subtraction as addition of the bitwise complement, so the
    /// Carry flag acts as the complement of borrow.
    pub fn subtract_memory_from_accumulator_with_borrow(&mut self, address: u16) -> (r: Result<
        (),
        Fault,
    >)
        requires
            old(self).wf(),
        ensures
            final(self).wf(),
            frame(*old(self), *final(self)),
            final(self).bus == old(self).bus,
            r is Ok <==> !in_ppu_window(address),
            (r is Err ==> *final(self) == *old(self) && r == Err::<(), Fault>(
                Fault::PpuRead { address },
            )),
            (r is Ok ==> final(self).registers == (Registers {
                a: add_result(
                    old(self).registers.a,
                    !old(self).mem(address),
                    old(self).registers.status,
                ),
                status: add_status(
                    old(self).registers.a,
                    !old(self).mem(address),
                    old(self).registers.status,
                ),
                ..old(self).registers
            })),
    {
        let data = self.bus.read(address)?;
        self.registers.add_to_a(!data);
        Ok(())
    }

    /// AND: bitwise-ands a memory byte into the accumulator, with a
    /// Zero/Negative update.
    pub fn and_memory_with_accumulator(&mut self, address: u16) -> (r: Result<(), Fault>)
        requires
            old(self).wf(),
        ensures
            final(self).wf(),
            frame(*old(self), *final(self)),
            final(self).bus == old(self).bus,
            r is Ok <==> !in_ppu_window(address),
            (r is Err ==> *final(self) == *old(self) && r == Err::<(), Fault>(
                Fault::PpuRead { address },
            )),
            (r is Ok ==> final(self).registers == (Registers {
                a: old(self).registers.a & old(self).mem(address),
                status: with_nz(
                    old(self).registers.status,
                    old(self).registers.a & old(self).mem(address),
                ),
                ..old(self).registers
            })),
    {
        let data = self.bus.read(address)?;
        self.registers.a = self.registers.a & data;
        self.registers.set_nz_flags(self.registers.a);
        Ok(())
    }

    /// EOR: exclusive-ors a memory byte into the accumulator, with a
    /// Zero/Negative update.
    pub fn exclusive_or_memory_with_accumulator(&mut self, address: u16) -> (r: Result<(), Fault>)
        requires
            old(self).wf(),
        ensures
            final(self).wf(),
            frame(*old(self), *final(self)),
            final(self).bus == old(self).bus,
            r is Ok <==> !in_ppu_window(address),
            (r is Err ==> *final(self) == *old(self) && r == Err::<(), Fault>(
                Fault::PpuRead { address },
            )),
            (r is Ok ==> final(self).registers == (Registers {
                a: old(self).registers.a ^ old(self).mem(address),
                status: with_nz(
                    old(self).registers.status,
                    old(self).registers.a ^ old(self).mem(address),
                ),
                ..old(self).registers
            })),
    {
        let data = self.bus.read(address)?;
        self.registers.a = self.registers.a ^ data;
        self.registers.set_nz_flags(self.registers.a);
        Ok(())
    }

    /// ORA: ors a memory byte into the accumulator, with a Zero/Negative
    /// update.
    pub fn or_memory_with_accumulator(&mut self, address: u16) -> (r: Result<(), Fault>)
        requires
            old(self).wf(),
        ensures
            final(self).wf(),
            frame(*old(self), *final(self)),
            final(self).bus == old(self).bus,
            r is Ok <==> !in_ppu_window(address),
            (r is Err ==> *final(self) == *old(self) && r == Err::<(), Fault>(
                Fault::PpuRead { address },
            )),
            (r is Ok ==> final(self).registers == (Registers {
                a: old(self).registers.a | old(self).mem(address),
                status: with_nz(
                    old(self).registers.status,
                    old(self).registers.a | old(self).mem(address),
                ),
                ..old(self).registers
            })),
    {
        let data = self.bus.read(address)?;
        self.registers.a = self.registers.a | data;
        self.registers.set_nz_flags(self.registers.a);
        Ok(())
    }

    /// ASL on a memory byte: the bit shifted out lands in Carry before the
    /// shifted value is written back and Zero/Negative updated. The Carry
    /// write precedes the memory write, so a fatal ROM-window write leaves
    /// Carry already changed.
    pub fn shift_left_one_bit_memory(&mut self, address: u16) -> (r: Result<u8, Fault>)
        requires
            old(self).wf(),
        ensures
            final(self).wf(),
            frame(*old(self), *final(self)),
            r is Ok <==> write_ok(address),
            (in_ppu_window(address) ==> r == Err::<u8, Fault>(Fault::PpuRead { address })
                && final(self).bus.cpu_vram@ == old(self).bus.cpu_vram@ && final(self).registers
                == old(self).registers),
            (address >= 0x8000 ==> r == Err::<u8, Fault>(Fault::RomWrite { address }) && final(self).bus.cpu_vram@ == old(self).bus.cpu_vram@ && final(self).registers == (Registers {
                status: set_bit(
                    old(self).registers.status,
                    CARRY,
                    old(self).mem(address) & 0x80 == 0x80,
                ),
                ..old(self).registers
            })),
            (r is Ok ==> ({
                let data = old(self).mem(address);
                let shifted = data << 1;
                &&& r == Ok::<u8, Fault>(shifted)
                &&& final(self).bus.cpu_vram@ == ram_after_write(
                    old(self).bus.cpu_vram@,
                    address,
                    shifted,
                )
                &&& final(self).registers == (Registers {
                    status: with_nz(
                        set_bit(old(self).registers.status, CARRY, data & 0x80 == 0x80),
                        shifted,
                    ),
                    ..old(self).registers
                })
            })),
    {
        let data = self.bus.read(address)?;
        self.registers.set_flag(CARRY, data & 0x80 == 0x80);
        let data = data << 1;
        self.bus.write(address, data)?;
        self.registers.set_nz_flags(data);
        Ok(data)
    }

    /// ASL on the accumulator.
    pub fn shift_left_one_bit_accumulator(&mut self)
        ensures
            final(self).bus == old(self).bus,
            final(self).registers == (Registers {
                a: old(self).registers.a << 1,
                status: with_nz(
                    set_bit(
                        old(self).registers.status,
                        CARRY,
                        old(self).registers.a & 0x80 == 0x80,
                    ),
                    old(self).registers.a << 1,
                ),
                ..old(self).registers
            }),
    {
        self.registers.set_flag(CARRY, self.registers.a & 0x80 == 0x80);
        self.registers.a = self.registers.a << 1;
        self.registers.set_nz_flags(self.registers.a);
    }

    /// LSR on a memory byte: bit 0 lands in Carry before the write-back.
    pub fn shift_one_bit_right_memory(&mut self, address: u16) -> (r: Result<u8, Fault>)
        requires
            old(self).wf(),
        ensures
            final(self).wf(),
            frame(*old(self), *final(self)),
            r is Ok <==> write_ok(address),
            (in_ppu_window(address) ==> r == Err::<u8, Fault>(Fault::PpuRead { address })
                && final(self).bus.cpu_vram@ == old(self).bus.cpu_vram@ && final(self).registers
                == old(self).registers),
            (address >= 0x8000 ==> r == Err::<u8, Fault>(Fault::RomWrite { address }) && final(self).bus.cpu_vram@ == old(self).bus.cpu_vram@ && final(self).registers == (Registers {
                status: set_bit(
                    old(self).registers.status,
                    CARRY,
                    old(self).mem(address) & 0x01 == 0x01,
                ),
                ..old(self).registers
            })),
            (r is Ok ==> ({
                let data = old(self).mem(address);
                let shifted = data >> 1;
                &&& r == Ok::<u8, Fault>(shifted)
                &&& final(self).bus.cpu_vram@ == ram_after_write(
                    old(self).bus.cpu_vram@,
                    address,
                    shifted,
                )
                &&& final(self).registers == (Registers {
                    status: with_nz(
                        set_bit(old(self).registers.status, CARRY, data & 0x01 == 0x01),
                        shifted,
                    ),
                    ..old(self).registers
                })
            })),
    {
        let data = self.bus.read(address)?;
        self.registers.set_flag(CARRY, data & 0x01 == 0x01);
        let data = data >> 1;
        self.bus.write(address, data)?;
        self.registers.set_nz_flags(data);
        Ok(data)
    }

    /// LSR on the accumulator.
    pub fn shift_one_bit_right_accumulator(&mut self)
        ensures
            final(self).bus == old(self).bus,
            final(self).registers == (Registers {
                a: old(self).registers.a >> 1,
                status: with_nz(
                    set_bit(
                        old(self).registers.status,
                        CARRY,
                        old(self).registers.a & 0x01 == 0x01,
                    ),
                    old(self).registers.a >> 1,
                ),
                ..old(self).registers
            }),
    {
        self.registers.set_flag(CARRY, self.registers.a & 0x01 == 0x01);
        self.registers.a = self.registers.a >> 1;
        self.registers.set_nz_flags(self.registers.a);
    }

    /// ROL on a memory byte: the old Carry fills bit 0, bit 7 becomes the
    /// new Carry.
    pub fn rotate_one_bit_left_memory(&mut self, address: u16) -> (r: Result<u8, Fault>)
        requires
            old(self).wf(),
        ensures
            final(self).wf(),
            frame(*old(self), *final(self)),
            r is Ok <==> write_ok(address),
            (in_ppu_window(address) ==> r == Err::<u8, Fault>(Fault::PpuRead { address })
                && final(self).bus.cpu_vram@ == old(self).bus.cpu_vram@ && final(self).registers
                == old(self).registers),
            (address >= 0x8000 ==> r == Err::<u8, Fault>(Fault::RomWrite { address }) && final(self).bus.cpu_vram@ == old(self).bus.cpu_vram@ && final(self).registers == (Registers {
                status: set_bit(
                    old(self).registers.status,
                    CARRY,
                    old(self).mem(address) & 0x80 == 0x80,
                ),
                ..old(self).registers
            })),
            (r is Ok ==> ({
                let data = old(self).mem(address);
                let rotated = (data << 1) | (if has_flag(old(self).registers.status, CARRY) {
                    0x01u8
                } else {
                    0x00u8
                });
                &&& r == Ok::<u8, Fault>(rotated)
                &&& final(self).bus.cpu_vram@ == ram_after_write(
                    old(self).bus.cpu_vram@,
                    address,
                    rotated,
                )
                &&& final(self).registers == (Registers {
                    status: with_nz(
                        set_bit(old(self).registers.status, CARRY, data & 0x80 == 0x80),
                        rotated,
                    ),
                    ..old(self).registers
                })
            })),
    {
        let data = self.bus.read(address)?;
        let carry = self.registers.get_flag(CARRY);
        self.registers.set_flag(CARRY, data & 0x80 == 0x80);
        let data = (data << 1) | (if carry {
            0x01
        } else {
            0x00
        });
        self.bus.write(address, data)?;
        self.registers.set_nz_flags(data);
        Ok(data)
    }

    /// ROL on the accumulator.
    pub fn rotate_one_bit_left_accumulator(&mut self)
        ensures
            final(self).bus == old(self).bus,
            ({
                let rotated = (old(self).registers.a << 1) | (if has_flag(
                    old(self).registers.status,
                    CARRY,
                ) {
                    0x01u8
                } else {
                    0x00u8
                });
                final(self).registers == (Registers {
                    a: rotated,
                    status: with_nz(
                        set_bit(
                            old(self).registers.status,
                            CARRY,
                            old(self).registers.a & 0x80 == 0x80,
                        ),
                        rotated,
                    ),
                    ..old(self).registers
                })
            }),
    {
        let carry = self.registers.get_flag(CARRY);
        self.registers.set_flag(CARRY, self.registers.a & 0x80 == 0x80);
        self.registers.a = (self.registers.a << 1) | (if carry {
            0x01
        } else {
            0x00
        });
        self.registers.set_nz_flags(self.registers.a);
    }

    /// ROR on a memory byte: the old Carry fills bit 7, bit 0 becomes the
    /// new Carry.
    pub fn rotate_one_bit_right_memory(&mut self, address: u16) -> (r: Result<u8, Fault>)
        requires
            old(self).wf(),
        ensures
            final(self).wf(),
            frame(*old(self), *final(self)),
            r is Ok <==> write_ok(address),
            (in_ppu_window(address) ==> r == Err::<u8, Fault>(Fault::PpuRead { address })
                && final(self).bus.cpu_vram@ == old(self).bus.cpu_vram@ && final(self).registers
                == old(self).registers),
            (address >= 0x8000 ==> r == Err::<u8, Fault>(Fault::RomWrite { address }) && final(self).bus.cpu_vram@ == old(self).bus.cpu_vram@ && final(self).registers == (Registers {
                status: set_bit(
                    old(self).registers.status,
                    CARRY,
                    old(self).mem(address) & 0x01 == 0x01,
                ),
                ..old(self).registers
            })),
            (r is Ok ==> ({
                let data = old(self).mem(address);
                let rotated = (data >> 1) | (if has_flag(old(self).registers.status, CARRY) {
                    0x80u8
                } else {
                    0x00u8
                });
                &&& r == Ok::<u8, Fault>(rotated)
                &&& final(self).bus.cpu_vram@ == ram_after_write(
                    old(self).bus.cpu_vram@,
                    address,
                    rotated,
                )
                &&& final(self).registers == (Registers {
                    status: with_nz(
                        set_bit(old(self).registers.status, CARRY, data & 0x01 == 0x01),
                        rotated,
                    ),
                    ..old(self).registers
                })
            })),
    {
        let data = self.bus.read(address)?;
        let carry = self.registers.get_flag(CARRY);
        self.registers.set_flag(CARRY, data & 0x01 == 0x01);
        let data = (data >> 1) | (if carry {
            0x80
        } else {
            0x00
        });
        self.bus.write(address, data)?;
        self.registers.set_nz_flags(data);
        Ok(data)
    }

    /// ROR on the accumulator.
    pub fn rotate_one_bit_right_accumulator(&mut self)
        ensures
            final(self).bus == old(self).bus,
            ({
                let rotated = (old(self).registers.a >> 1) | (if has_flag(
                    old(self).registers.status,
                    CARRY,
                ) {
                    0x80u8
                } else {
                    0x00u8
                });
                final(self).registers == (Registers {
                    a: rotated,
                    status: with_nz(
                        set_bit(
                            old(self).registers.status,
                            CARRY,
                            old(self).registers.a & 0x01 == 0x01,
                        ),
                        rotated,
                    ),
                    ..old(self).registers
                })
            }),
    {
        let carry = self.registers.get_flag(CARRY);
        self.registers.set_flag(CARRY, self.registers.a & 0x01 == 0x01);
        self.registers.a = (self.registers.a >> 1) | (if carry {
            0x80
        } else {
            0x00
        });
        self.registers.set_nz_flags(self.registers.a);
    }

    /// CLC: clears Carry.
    pub fn clear_carry_flag(&mut self)
        ensures
            final(self).bus == old(self).bus,
            final(self).registers == (Registers {
                status: set_bit(old(self).registers.status, CARRY, false),
                ..old(self).registers
            }),
    {
        self.registers.set_flag(CARRY, false);
    }

    /// CLD: clears Decimal mode.
    pub fn clear_decimal_mode(&mut self)
        ensures
            final(self).bus == old(self).bus,
            final(self).registers == (Registers {
                status: set_bit(old(self).registers.status, DECIMAL, false),
                ..old(self).registers
            }),
    {
        self.registers.set_flag(DECIMAL, false);
    }

    /// CLI: clears Interrupt disable.
    pub fn clear_interrupt_disable_bit(&mut self)
        ensures
            final(self).bus == old(self).bus,
            final(self).registers == (Registers {
                status: set_bit(old(self).registers.status, INTERRUPT_DISABLE, false),
                ..old(self).registers
            }),
    {
        self.registers.set_flag(INTERRUPT_DISABLE, false);
    }

    /// CLV: clears Overflow.
    pub fn clear_overflow_flag(&mut self)
        ensures
            final(self).bus == old(self).bus,
            final(self).registers == (Registers {
                status: set_bit(old(self).registers.status, OVERFLOW, false),
                ..old(self).registers
            }),
    {
        self.registers.set_flag(OVERFLOW, false);
    }

    /// SEC: sets Carry.
    pub fn set_carry_flag(&mut self)
        ensures
            final(self).bus == old(self).bus,
            final(self).registers == (Registers {
                status: set_bit(old(self).registers.status, CARRY, true),
                ..old(self).registers
            }),
    {
        self.registers.set_flag(CARRY, true);
    }

    /// SED: sets Decimal mode.
    pub fn set_decimal_mode(&mut self)
        ensures
            final(self).bus == old(self).bus,
            final(self).registers == (Registers {
                status: set_bit(old(self).registers.status, DECIMAL, true),
                ..old(self).registers
            }),
    {
        self.registers.set_flag(DECIMAL, true);
    }

    /// SEI: sets Interrupt disable.
    pub fn set_interrupt_disable_bit(&mut self)
        ensures
            final(self).bus == old(self).bus,
            final(self).registers == (Registers {
                status: set_bit(old(self).registers.status, INTERRUPT_DISABLE, true),
                ..old(self).registers
            }),
    {
        self.registers.set_flag(INTERRUPT_DISABLE, true);
    }

    /// Comparison against register value `rv`: Carry holds `rv >=
    /// operand`, then Zero/Negative are set from the wrapping difference.
    /// The compared register itself never changes.
    pub fn compare_memory_with(&mut self, address: u16, rv: u8) -> (r: Result<(), Fault>)
        requires
            old(self).wf(),
        ensures
            final(self).wf(),
            frame(*old(self), *final(self)),
            final(self).bus == old(self).bus,
            r is Ok <==> !in_ppu_window(address),
            (r is Err ==> *final(self) == *old(self) && r == Err::<(), Fault>(
                Fault::PpuRead { address },
            )),
            (r is Ok ==> final(self).registers == (Registers {
                status: with_nz(
                    set_bit(old(self).registers.status, CARRY, rv >= old(self).mem(address)),
                    u8_specs::wrapping_sub(rv, old(self).mem(address)),
                ),
                ..old(self).registers
            })),
    {
        let data = self.bus.read(address)?;
        self.registers.set_flag(CARRY, rv >= data);
        self.registers.set_nz_flags(rv.wrapping_sub(data));
        Ok(())
    }

    /// CMP: compares memory with the accumulator.
    pub fn compare_memory_with_accumulator(&mut self, address: u16) -> (r: Result<(), Fault>)
        requires
            old(self).wf(),
        ensures
            final(self).wf(),
            frame(*old(self), *final(self)),
            final(self).bus == old(self).bus,
            r is Ok <==> !in_ppu_window(address),
            (r is Err ==> *final(self) == *old(self) && r == Err::<(), Fault>(
                Fault::PpuRead { address },
            )),
            (r is Ok ==> final(self).registers == (Registers {
                status: with_nz(
                    set_bit(
                        old(self).registers.status,
                        CARRY,
                        old(self).registers.a >= old(self).mem(address),
                    ),
                    u8_specs::wrapping_sub(old(self).registers.a, old(self).mem(address)),
                ),
                ..old(self).registers
            })),
    {
        let rv = self.registers.a;
        self.compare_memory_with(address, rv)
    }

    /// CPX: compares memory with the X index.
    pub fn compare_memory_and_index_x(&mut self, address: u16) -> (r: Result<(), Fault>)
        requires
            old(self).wf(),
        ensures
            final(self).wf(),
            frame(*old(self), *final(self)),
            final(self).bus == old(self).bus,
            r is Ok <==> !in_ppu_window(address),
            (r is Err ==> *final(self) == *old(self) && r == Err::<(), Fault>(
                Fault::PpuRead { address },
            )),
            (r is Ok ==> final(self).registers == (Registers {
                status: with_nz(
                    set_bit(
                        old(self).registers.status,
                        CARRY,
                        old(self).registers.x >= old(self).mem(address),
                    ),
                    u8_specs::wrapping_sub(old(self).registers.x, old(self).mem(address)),
                ),
                ..old(self).registers
            })),
    {
        let rv = self.registers.x;
        self.compare_memory_with(address, rv)
    }

    /// CPY: compares memory with the Y index.
    pub fn compare_memory_and_index_y(&mut self, address: u16) -> (r: Result<(), Fault>)
        requires
            old(self).wf(),
        ensures
            final(self).wf(),
            frame(*old(self), *final(self)),
            final(self).bus == old(self).bus,
            r is Ok <==> !in_ppu_window(address),
            (r is Err ==> *final(self) == *old(self) && r == Err::<(), Fault>(
                Fault::PpuRead { address },
            )),
            (r is Ok ==> final(self).registers == (Registers {
                status: with_nz(
                    set_bit(
                        old(self).registers.status,
                        CARRY,
                        old(self).registers.y >= old(self).mem(address),
                    ),
                    u8_specs::wrapping_sub(old(self).registers.y, old(self).mem(address)),
                ),
                ..old(self).registers
            })),
    {
        let rv = self.registers.y;
        self.compare_memory_with(address, rv)
    }

    /// Conditional branch: reads the signed offset byte at the program
    /// counter and, when the condition holds, adds `1 + offset`
    /// (sign-extended) to it. When the condition fails the program
    /// counter is left for the generic post-execute advance.
    pub fn branch(&mut self, condition: bool) -> (r: Result<(), Fault>)
        requires
            old(self).wf(),
        ensures
            final(self).wf(),
            frame(*old(self), *final(self)),
            final(self).bus == old(self).bus,
            (!condition ==> r is Ok && *final(self) == *old(self)),
            (condition ==> ({
                let pc = old(self).registers.program_counter;
                if in_ppu_window(pc) {
                    r == Err::<(), Fault>(Fault::PpuRead { address: pc }) && *final(self) == *old(
                        self,
                    )
                } else {
                    r is Ok && final(self).registers == (Registers {
                        program_counter: u16_specs::wrapping_add(
                            u16_specs::wrapping_add(pc, 1),
                            sign_ext(old(self).mem(pc)),
                        ),
                        ..old(self).registers
                    })
                }
            })),
    {
        if condition {
            let offset = self.bus.read(self.registers.program_counter)?;
            let displacement: u16 = if offset >= 0x80 {
                0xFF00 + (offset as u16)
            } else {
                offset as u16
            };
            self.registers.program_counter = self.registers.program_counter.wrapping_add(
                1,
            ).wrapping_add(displacement);
        }
        Ok(())
    }

    /// BCC: branch when Carry is clear.
    pub fn branch_on_carry_clear(&mut self) -> (r: Result<(), Fault>)
        requires
            old(self).wf(),
        ensures
            final(self).wf(),
            frame(*old(self), *final(self)),
            final(self).bus == old(self).bus,
            machine_of(*final(self)) == eff_branch(machine_of(*old(self)), !has_flag(old(self).registers.status, CARRY)).machine,
            r is Ok <==> eff_branch(machine_of(*old(self)), !has_flag(old(self).registers.status, CARRY)).result is Ok,
            (r matches Err(f) ==> eff_branch(machine_of(*old(self)), !has_flag(old(self).registers.status, CARRY)).result
                == Err::<bool, Fault>(f)),
    {
        let condition = !self.registers.get_flag(CARRY);
        self.branch(condition)
    }

    /// BCS: branch when Carry is set.
    pub fn branch_on_carry_set(&mut self) -> (r: Result<(), Fault>)
        requires
            old(self).wf(),
        ensures
            final(self).wf(),
            frame(*old(self), *final(self)),
            final(self).bus == old(self).bus,
            machine_of(*final(self)) == eff_branch(machine_of(*old(self)), has_flag(old(self).registers.status, CARRY)).machine,
            r is Ok <==> eff_branch(machine_of(*old(self)), has_flag(old(self).registers.status, CARRY)).result is Ok,
            (r matches Err(f) ==> eff_branch(machine_of(*old(self)), has_flag(old(self).registers.status, CARRY)).result
                == Err::<bool, Fault>(f)),
    {
        let condition = self.registers.get_flag(CARRY);
        self.branch(condition)
    }

    /// BEQ: branch when Zero is set.
    pub fn branch_on_result_zero(&mut self) -> (r: Result<(), Fault>)
        requires
            old(self).wf(),
        ensures
            final(self).wf(),
            frame(*old(self), *final(self)),
            final(self).bus == old(self).bus,
            machine_of(*final(self)) == eff_branch(machine_of(*old(self)), has_flag(old(self).registers.status, ZERO)).machine,
            r is Ok <==> eff_branch(machine_of(*old(self)), has_flag(old(self).registers.status, ZERO)).result is Ok,
            (r matches Err(f) ==> eff_branch(machine_of(*old(self)), has_flag(old(self).registers.status, ZERO)).result
                == Err::<bool, Fault>(f)),
    {
        let condition = self.registers.get_flag(ZERO);
        self.branch(condition)
    }

    /// BMI: branch when Negative is set.
    pub fn branch_on_result_minus(&mut self) -> (r: Result<(), Fault>)
        requires
            old(self).wf(),
        ensures
            final(self).wf(),
            frame(*old(self), *final(self)),
            final(self).bus == old(self).bus,
            machine_of(*final(self)) == eff_branch(machine_of(*old(self)), has_flag(old(self).registers.status, NEGATIVE)).machine,
            r is Ok <==> eff_branch(machine_of(*old(self)), has_flag(old(self).registers.status, NEGATIVE)).result is Ok,
            (r matches Err(f) ==> eff_branch(machine_of(*old(self)), has_flag(old(self).registers.status, NEGATIVE)).result
                == Err::<bool, Fault>(f)),
    {
        let condition = self.registers.get_flag(NEGATIVE);
        self.branch(condition)
    }

    /// BNE: branch when Zero is clear.
    pub fn branch_on_result_not_zero(&mut self) -> (r: Result<(), Fault>)
        requires
            old(self).wf(),
        ensures
            final(self).wf(),
            frame(*old(self), *final(self)),
            final(self).bus == old(self).bus,
            machine_of(*final(self)) == eff_branch(machine_of(*old(self)), !has_flag(old(self).registers.status, ZERO)).machine,
            r is Ok <==> eff_branch(machine_of(*old(self)), !has_flag(old(self).registers.status, ZERO)).result is Ok,
            (r matches Err(f) ==> eff_branch(machine_of(*old(self)), !has_flag(old(self).registers.status, ZERO)).result
                == Err::<bool, Fault>(f)),
    {
        let condition = !self.registers.get_flag(ZERO);
        self.branch(condition)
    }

    /// BPL: branch when Negative is clear.
    pub fn branch_on_result_plus(&mut self) -> (r: Result<(), Fault>)
        requires
            old(self).wf(),
        ensures
            final(self).wf(),
            frame(*old(self), *final(self)),
            final(self).bus == old(self).bus,
            machine_of(*final(self)) == eff_branch(machine_of(*old(self)), !has_flag(old(self).registers.status, NEGATIVE)).machine,
            r is Ok <==> eff_branch(machine_of(*old(self)), !has_flag(old(self).registers.status, NEGATIVE)).result is Ok,
            (r matches Err(f) ==> eff_branch(machine_of(*old(self)), !has_flag(old(self).registers.status, NEGATIVE)).result
                == Err::<bool, Fault>(f)),
    {
        let condition = !self.registers.get_flag(NEGATIVE);
        self.branch(condition)
    }

    /// BVC: branch when Overflow is clear.
    pub fn branch_on_overflow_clear(&mut self) -> (r: Result<(), Fault>)
        requires
            old(self).wf(),
        ensures
            final(self).wf(),
            frame(*old(self), *final(self)),
            final(self).bus == old(self).bus,
            machine_of(*final(self)) == eff_branch(machine_of(*old(self)), !has_flag(old(self).registers.status, OVERFLOW)).machine,
            r is Ok <==> eff_branch(machine_of(*old(self)), !has_flag(old(self).registers.status, OVERFLOW)).result is Ok,
            (r matches Err(f) ==> eff_branch(machine_of(*old(self)), !has_flag(old(self).registers.status, OVERFLOW)).result
                == Err::<bool, Fault>(f)),
    {
        let condition = !self.registers.get_flag(OVERFLOW);
        self.branch(condition)
    }

    /// BVS: branch when Overflow is set.
    pub fn branch_on_overflow_set(&mut self) -> (r: Result<(), Fault>)
        requires
            old(self).wf(),
        ensures
            final(self).wf(),
            frame(*old(self), *final(self)),
            final(self).bus == old(self).bus,
            machine_of(*final(self)) == eff_branch(machine_of(*old(self)), has_flag(old(self).registers.status, OVERFLOW)).machine,
            r is Ok <==> eff_branch(machine_of(*old(self)), has_flag(old(self).registers.status, OVERFLOW)).result is Ok,
            (r matches Err(f) ==> eff_branch(machine_of(*old(self)), has_flag(old(self).registers.status, OVERFLOW)).result
                == Err::<bool, Fault>(f)),
    {
        let condition = self.registers.get_flag(OVERFLOW);
        self.branch(condition)
    }

    /// JMP: the program counter takes the resolved address.
    pub fn jump_to_new_location(&mut self, address: u16)
        ensures
            final(self).bus == old(self).bus,
            final(self).registers == (Registers {
                program_counter: address,
                ..old(self).registers
            }),
    {
        self.registers.program_counter = address;
    }

    /// JSR: pushes the address of the instruction's last byte (the return
    /// address minus one, high byte first), then jumps to the absolute
    /// operand. The operand is read after the push, from the updated RAM.
    pub fn jump_to_new_location_saving_return_address(&mut self) -> (r: Result<(), Fault>)
        requires
            old(self).wf(),
        ensures
            final(self).wf(),
            frame(*old(self), *final(self)),
            machine_of(*final(self)) == eff_jsr(machine_of(*old(self))).machine,
            r is Ok <==> eff_jsr(machine_of(*old(self))).result is Ok,
            (r matches Err(f) ==> eff_jsr(machine_of(*old(self))).result == Err::<bool, Fault>(
                f,
            )),
    {
        self.stack_push_u16(self.registers.program_counter.wrapping_add(1));
        let address = self.get_operand_address(AddressingMode::Absolute)?;
        self.registers.program_counter = address;
        Ok(())
    }

    /// RTS: pulls the 16-bit return address (low byte first) and adds one
    /// to obtain the instruction after the call.
    pub fn return_from_subroutine(&mut self)
        requires
            old(self).wf(),
        ensures
            final(self).wf(),
            frame(*old(self), *final(self)),
            final(self).bus == old(self).bus,
            ({
                let sp = old(self).registers.stack_pointer;
                let lo = old(self).mem(stack_addr(u8_specs::wrapping_add(sp, 1)));
                let hi = old(self).mem(
                    stack_addr(u8_specs::wrapping_add(u8_specs::wrapping_add(sp, 1), 1)),
                );
                final(self).registers == (Registers {
                    stack_pointer: u8_specs::wrapping_add(u8_specs::wrapping_add(sp, 1), 1),
                    program_counter: u16_specs::wrapping_add(word(lo, hi), 1),
                    ..old(self).registers
                })
            }),
    {
        let address = self.stack_pop_u16();
        self.registers.program_counter = address.wrapping_add(1);
    }

    /// RTI: pulls the status (Break forced clear, Unused forced set,
    /// whatever was stored) and then the 16-bit program counter.
    pub fn return_from_interrupt(&mut self)
        requires
            old(self).wf(),
        ensures
            final(self).wf(),
            frame(*old(self), *final(self)),
            final(self).bus == old(self).bus,
            ({
                let sp = old(self).registers.stack_pointer;
                let status = old(self).mem(stack_addr(u8_specs::wrapping_add(sp, 1)));
                let sp1 = u8_specs::wrapping_add(sp, 1);
                let lo = old(self).mem(stack_addr(u8_specs::wrapping_add(sp1, 1)));
                let hi = old(self).mem(
                    stack_addr(u8_specs::wrapping_add(u8_specs::wrapping_add(sp1, 1), 1)),
                );
                final(self).registers == (Registers {
                    status: set_bit(set_bit(status, BREAK, false), UNUSED, true),
                    stack_pointer: u8_specs::wrapping_add(u8_specs::wrapping_add(sp1, 1), 1),
                    program_counter: word(lo, hi),
                    ..old(self).registers
                })
            }),
    {
        let status = self.stack_pop();
        self.registers.status = (status & !BREAK) | UNUSED;
        self.registers.program_counter = self.stack_pop_u16();
    }

    /// BIT: Zero from the masked accumulator, Negative and Overflow
    /// copied from bits 7 and 6 of the memory byte.
    pub fn test_bits_in_memory_with_accumulator(&mut self, address: u16) -> (r: Result<(), Fault>)
        requires
            old(self).wf(),
        ensures
            final(self).wf(),
            frame(*old(self), *final(self)),
            final(self).bus == old(self).bus,
            r is Ok <==> !in_ppu_window(address),
            (r is Err ==> *final(self) == *old(self) && r == Err::<(), Fault>(
                Fault::PpuRead { address },
            )),
            (r is Ok ==> ({
                let data = old(self).mem(address);
                final(self).registers == (Registers {
                    status: set_bit(
                        set_bit(
                            set_bit(
                                old(self).registers.status,
                                ZERO,
                                old(self).registers.a & data == 0,
                            ),
                            NEGATIVE,
                            data & 0x80 == 0x80,
                        ),
                        OVERFLOW,
                        data & 0x40 == 0x40,
                    ),
                    ..old(self).registers
                })
            })),
    {
        let data = self.bus.read(address)?;
        self.registers.set_flag(ZERO, self.registers.a & data == 0);
        self.registers.set_flag(NEGATIVE, data & 0x80 == 0x80);
        self.registers.set_flag(OVERFLOW, data & 0x40 == 0x40);
        Ok(())
    }

    /// ALR (undocumented): AND the operand into the accumulator, then LSR
    /// the accumulator.
    pub fn alr(&mut self, address: u16) -> (r: Result<(), Fault>)
        requires
            old(self).wf(),
        ensures
            final(self).wf(),
            frame(*old(self), *final(self)),
            final(self).bus == old(self).bus,
            r is Ok <==> !in_ppu_window(address),
            (r is Err ==> *final(self) == *old(self) && r == Err::<(), Fault>(
                Fault::PpuRead { address },
            )),
            (r is Ok ==> ({
                let masked = old(self).registers.a & old(self).mem(address);
                final(self).registers == (Registers {
                    a: masked >> 1,
                    status: with_nz(
                        set_bit(old(self).registers.status, CARRY, masked & 0x01 == 0x01),
                        masked >> 1,
                    ),
                    ..old(self).registers
                })
            })),
    {
        let data = self.bus.read(address)?;
        self.registers.a = self.registers.a & data;
        self.shift_one_bit_right_accumulator();
        Ok(())
    }

    /// ANC (undocumented): AND the operand into the accumulator with a
    /// Zero/Negative update, then copy Negative into Carry.
    pub fn anc(&mut self, address: u16) -> (r: Result<(), Fault>)
        requires
            old(self).wf(),
        ensures
            final(self).wf(),
            frame(*old(self), *final(self)),
            final(self).bus == old(self).bus,
            r is Ok <==> !in_ppu_window(address),
            (r is Err ==> *final(self) == *old(self) && r == Err::<(), Fault>(
                Fault::PpuRead { address },
            )),
            (r is Ok ==> ({
                let masked = old(self).registers.a & old(self).mem(address);
                let s1 = with_nz(old(self).registers.status, masked);
                final(self).registers == (Registers {
                    a: masked,
                    status: set_bit(s1, CARRY, has_flag(s1, NEGATIVE)),
                    ..old(self).registers
                })
            })),
    {
        let data = self.bus.read(address)?;
        self.registers.a = self.registers.a & data;
        self.registers.set_nz_flags(self.registers.a);
        let negative = self.registers.get_flag(NEGATIVE);
        self.registers.set_flag(CARRY, negative);
        Ok(())
    }

    /// ANE (undocumented): the accumulator takes X masked by the operand,
    /// with a Zero/Negative update. The hardware's unstable constant is
    /// taken as zero, the stable form of this instruction.
    pub fn ane_xaa(&mut self, address: u16) -> (r: Result<(), Fault>)
        requires
            old(self).wf(),
        ensures
            final(self).wf(),
            frame(*old(self), *final(self)),
            final(self).bus == old(self).bus,
            r is Ok <==> !in_ppu_window(address),
            (r is Err ==> *final(self) == *old(self) && r == Err::<(), Fault>(
                Fault::PpuRead { address },
            )),
            (r is Ok ==> ({
                let masked = old(self).registers.x & old(self).mem(address);
                final(self).registers == (Registers {
                    a: masked,
                    status: with_nz(old(self).registers.status, masked),
                    ..old(self).registers
                })
            })),
    {
        let data = self.bus.read(address)?;
        self.registers.a = self.registers.x & data;
        self.registers.set_nz_flags(self.registers.a);
        Ok(())
    }

    /// DCP (undocumented): decrement the memory byte, then compare it
    /// with the accumulator.
    pub fn dcp_dcm(&mut self, address: u16) -> (r: Result<(), Fault>)
        requires
            old(self).wf(),
        ensures
            final(self).wf(),
            frame(*old(self), *final(self)),
            r is Ok <==> write_ok(address),
            (r is Err ==> final(self).bus.cpu_vram@ == old(self).bus.cpu_vram@ && final(self).registers == old(self).registers),
            (in_ppu_window(address) ==> r == Err::<(), Fault>(Fault::PpuRead { address })),
            (address >= 0x8000 ==> r == Err::<(), Fault>(Fault::RomWrite { address })),
            (r is Ok ==> ({
                let data = u8_specs::wrapping_sub(old(self).mem(address), 1);
                &&& final(self).bus.cpu_vram@ == ram_after_write(
                    old(self).bus.cpu_vram@,
                    address,
                    data,
                )
                &&& final(self).registers == (Registers {
                    status: with_nz(
                        set_bit(
                            old(self).registers.status,
                            CARRY,
                            old(self).registers.a >= data,
                        ),
                        u8_specs::wrapping_sub(old(self).registers.a, data),
                    ),
                    ..old(self).registers
                })
            })),
    {
        let data = self.bus.read(address)?;
        let data = data.wrapping_sub(1);
        self.bus.write(address, data)?;
        self.registers.set_flag(CARRY, self.registers.a >= data);
        self.registers.set_nz_flags(self.registers.a.wrapping_sub(data));
        Ok(())
    }

    /// ISC (undocumented): increment the memory byte, then subtract it
    /// from the accumulator with borrow.
    pub fn isc_isb_ins(&mut self, address: u16) -> (r: Result<(), Fault>)
        requires
            old(self).wf(),
        ensures
            final(self).wf(),
            frame(*old(self), *final(self)),
            r is Ok <==> write_ok(address),
            (r is Err ==> final(self).bus.cpu_vram@ == old(self).bus.cpu_vram@ && final(self).registers == old(self).registers),
            (in_ppu_window(address) ==> r == Err::<(), Fault>(Fault::PpuRead { address })),
            (address >= 0x8000 ==> r == Err::<(), Fault>(Fault::RomWrite { address })),
            (r is Ok ==> ({
                let data = u8_specs::wrapping_add(old(self).mem(address), 1);
                let s1 = with_nz(old(self).registers.status, data);
                &&& final(self).bus.cpu_vram@ == ram_after_write(
                    old(self).bus.cpu_vram@,
                    address,
                    data,
                )
                &&& final(self).registers == (Registers {
                    a: add_result(old(self).registers.a, !data, s1),
                    status: add_status(old(self).registers.a, !data, s1),
                    ..old(self).registers
                })
            })),
    {
        let data = self.increment_memory_by_one(address)?;
        self.registers.add_to_a(!data);
        Ok(())
    }

    /// LAS (undocumented): the memory byte masked by the stack pointer
    /// lands in the accumulator, X and the stack pointer at once.
    pub fn las_lar(&mut self, address: u16) -> (r: Result<(), Fault>)
        requires
            old(self).wf(),
        ensures
            final(self).wf(),
            frame(*old(self), *final(self)),
            final(self).bus == old(self).bus,
            r is Ok <==> !in_ppu_window(address),
            (r is Err ==> *final(self) == *old(self) && r == Err::<(), Fault>(
                Fault::PpuRead { address },
            )),
            (r is Ok ==> ({
                let masked = old(self).registers.stack_pointer & old(self).mem(address);
                final(self).registers == (Registers {
                    a: masked,
                    x: masked,
                    stack_pointer: masked,
                    status: with_nz(old(self).registers.status, masked),
                    ..old(self).registers
                })
            })),
    {
        let data = self.bus.read(address)?;
        let data = self.registers.stack_pointer & data;
        self.registers.a = data;
        self.registers.x = data;
        self.registers.stack_pointer = data;
        self.registers.set_nz_flags(data);
        Ok(())
    }

    /// LAX (undocumented): load the memory byte into the accumulator and
    /// X at once, with a Zero/Negative update.
    pub fn lax(&mut self, address: u16) -> (r: Result<(), Fault>)
        requires
            old(self).wf(),
        ensures
            final(self).wf(),
            frame(*old(self), *final(self)),
            final(self).bus == old(self).bus,
            r is Ok <==> !in_ppu_window(address),
            (r is Err ==> *final(self) == *old(self) && r == Err::<(), Fault>(
                Fault::PpuRead { address },
            )),
            (r is Ok ==> final(self).registers == (Registers {
                a: old(self).mem(address),
                x: old(self).mem(address),
                status: with_nz(old(self).registers.status, old(self).mem(address)),
                ..old(self).registers
            })),
    {
        let data = self.bus.read(address)?;
        self.registers.a = data;
        self.registers.x = data;
        self.registers.set_nz_flags(data);
        Ok(())
    }

    /// RLA (undocumented): ROL the memory byte, then AND it into the
    /// accumulator.
    pub fn rla(&mut self, address: u16) -> (r: Result<(), Fault>)
        requires
            old(self).wf(),
        ensures
            final(self).wf(),
            frame(*old(self), *final(self)),
            r is Ok <==> write_ok(address),
            (in_ppu_window(address) ==> r == Err::<(), Fault>(Fault::PpuRead { address })
                && final(self).bus.cpu_vram@ == old(self).bus.cpu_vram@ && final(self).registers
                == old(self).registers),
            (address >= 0x8000 ==> r == Err::<(), Fault>(Fault::RomWrite { address }) && final(self).bus.cpu_vram@ == old(self).bus.cpu_vram@ && final(self).registers == (Registers {
                status: set_bit(
                    old(self).registers.status,
                    CARRY,
                    old(self).mem(address) & 0x80 == 0x80,
                ),
                ..old(self).registers
            })),
            (r is Ok ==> ({
                let data = old(self).mem(address);
                let rotated = (data << 1) | (if has_flag(old(self).registers.status, CARRY) {
                    0x01u8
                } else {
                    0x00u8
                });
                let s1 = with_nz(
                    set_bit(old(self).registers.status, CARRY, data & 0x80 == 0x80),
                    rotated,
                );
                let masked = old(self).registers.a & rotated;
                &&& final(self).bus.cpu_vram@ == ram_after_write(
                    old(self).bus.cpu_vram@,
                    address,
                    rotated,
                )
                &&& final(self).registers == (Registers {
                    a: masked,
                    status: with_nz(s1, masked),
                    ..old(self).registers
                })
            })),
    {
        let data = self.rotate_one_bit_left_memory(address)?;
        self.registers.a = self.registers.a & data;
        self.registers.set_nz_flags(self.registers.a);
        Ok(())
    }

    /// RRA (undocumented): ROR the memory byte, then add it into the
    /// accumulator with the Carry the rotation just produced.
    pub fn rra(&mut self, address: u16) -> (r: Result<(), Fault>)
        requires
            old(self).wf(),
        ensures
            final(self).wf(),
            frame(*old(self), *final(self)),
            r is Ok <==> write_ok(address),
            (in_ppu_window(address) ==> r == Err::<(), Fault>(Fault::PpuRead { address })
                && final(self).bus.cpu_vram@ == old(self).bus.cpu_vram@ && final(self).registers
                == old(self).registers),
            (address >= 0x8000 ==> r == Err::<(), Fault>(Fault::RomWrite { address }) && final(self).bus.cpu_vram@ == old(self).bus.cpu_vram@ && final(self).registers == (Registers {
                status: set_bit(
                    old(self).registers.status,
                    CARRY,
                    old(self).mem(address) & 0x01 == 0x01,
                ),
                ..old(self).registers
            })),
            (r is Ok ==> ({
                let data = old(self).mem(address);
                let rotated = (data >> 1) | (if has_flag(old(self).registers.status, CARRY) {
                    0x80u8
                } else {
                    0x00u8
                });
                let s1 = with_nz(
                    set_bit(old(self).registers.status, CARRY, data & 0x01 == 0x01),
                    rotated,
                );
                &&& final(self).bus.cpu_vram@ == ram_after_write(
                    old(self).bus.cpu_vram@,
                    address,
                    rotated,
                )
                &&& final(self).registers == (Registers {
                    a: add_result(old(self).registers.a, rotated, s1),
                    status: add_status(old(self).registers.a, rotated, s1),
                    ..old(self).registers
                })
            })),
    {
        let data = self.rotate_one_bit_right_memory(address)?;
        self.registers.add_to_a(data);
        Ok(())
    }

    /// SAX (undocumented): stores the accumulator masked by X; no flags
    /// change.
    pub fn sax_axs_aax(&mut self, address: u16) -> (r: Result<(), Fault>)
        requires
            old(self).wf(),
        ensures
            final(self).wf(),
            frame(*old(self), *final(self)),
            final(self).registers == old(self).registers,
            r is Ok <==> write_ok(address),
            (r is Ok ==> final(self).bus.cpu_vram@ == ram_after_write(
                old(self).bus.cpu_vram@,
                address,
                old(self).registers.a & old(self).registers.x,
            )),
            (r is Err ==> final(self).bus.cpu_vram@ == old(self).bus.cpu_vram@),
            (in_ppu_window(address) ==> r == Err::<(), Fault>(Fault::PpuWrite { address })),
            (address >= 0x8000 ==> r == Err::<(), Fault>(Fault::RomWrite { address })),
    {
        let data = self.registers.a & self.registers.x;
        self.bus.write(address, data)?;
        Ok(())
    }

    /// SLO (undocumented): ASL the memory byte, then OR it into the
    /// accumulator.
    pub fn slo_aso(&mut self, address: u16) -> (r: Result<(), Fault>)
        requires
            old(self).wf(),
        ensures
            final(self).wf(),
            frame(*old(self), *final(self)),
            r is Ok <==> write_ok(address),
            (in_ppu_window(address) ==> r == Err::<(), Fault>(Fault::PpuRead { address })
                && final(self).bus.cpu_vram@ == old(self).bus.cpu_vram@ && final(self).registers
                == old(self).registers),
            (address >= 0x8000 ==> r == Err::<(), Fault>(Fault::RomWrite { address }) && final(self).bus.cpu_vram@ == old(self).bus.cpu_vram@ && final(self).registers == (Registers {
                status: set_bit(
                    old(self).registers.status,
                    CARRY,
                    old(self).mem(address) & 0x80 == 0x80,
                ),
                ..old(self).registers
            })),
            (r is Ok ==> ({
                let data = old(self).mem(address);
                let shifted = data << 1;
                let s1 = with_nz(
                    set_bit(old(self).registers.status, CARRY, data & 0x80 == 0x80),
                    shifted,
                );
                let merged = old(self).registers.a | shifted;
                &&& final(self).bus.cpu_vram@ == ram_after_write(
                    old(self).bus.cpu_vram@,
                    address,
                    shifted,
                )
                &&& final(self).registers == (Registers {
                    a: merged,
                    status: with_nz(s1, merged),
                    ..old(self).registers
                })
            })),
    {
        let data = self.shift_left_one_bit_memory(address)?;
        self.registers.a = self.registers.a | data;
        self.registers.set_nz_flags(self.registers.a);
        Ok(())
    }

    /// SRE (undocumented): LSR the memory byte, then EOR it into the
    /// accumulator.
    pub fn sre_lse(&mut self, address: u16) -> (r: Result<(), Fault>)
        requires
            old(self).wf(),
        ensures
            final(self).wf(),
            frame(*old(self), *final(self)),
            r is Ok <==> write_ok(address),
            (in_ppu_window(address) ==> r == Err::<(), Fault>(Fault::PpuRead { address })
                && final(self).bus.cpu_vram@ == old(self).bus.cpu_vram@ && final(self).registers
                == old(self).registers),
            (address >= 0x8000 ==> r == Err::<(), Fault>(Fault::RomWrite { address }) && final(self).bus.cpu_vram@ == old(self).bus.cpu_vram@ && final(self).registers == (Registers {
                status: set_bit(
                    old(self).registers.status,
                    CARRY,
                    old(self).mem(address) & 0x01 == 0x01,
                ),
                ..old(self).registers
            })),
            (r is Ok ==> ({
                let data = old(self).mem(address);
                let shifted = data >> 1;
                let s1 = with_nz(
                    set_bit(old(self).registers.status, CARRY, data & 0x01 == 0x01),
                    shifted,
                );
                let merged = old(self).registers.a ^ shifted;
                &&& final(self).bus.cpu_vram@ == ram_after_write(
                    old(self).bus.cpu_vram@,
                    address,
                    shifted,
                )
                &&& final(self).registers == (Registers {
                    a: merged,
                    status: with_nz(s1, merged),
                    ..old(self).registers
                })
            })),
    {
        let data = self.shift_one_bit_right_memory(address)?;
        self.registers.a = self.registers.a ^ data;
        self.registers.set_nz_flags(self.registers.a);
        Ok(())
    }

    /// Reinitializes the registers and loads the program counter from the
    /// 16-bit reset vector stored at 0xFFFC. The vector lies in the ROM
    /// window, so the read never faults.
    pub fn reset(&mut self)
        requires
            old(self).wf(),
        ensures
            final(self).wf(),
            frame(*old(self), *final(self)),
            final(self).bus == old(self).bus,
            final(self).registers == (Registers {
                a: 0,
                x: 0,
                y: 0,
                status: 0x24,
                stack_pointer: 0xFD,
                program_counter: old(self).mem16(0xFFFC),
            }),
    {
        let pc = match self.bus.read_u16(0xFFFC) {
            Ok(v) => v,
            Err(_) => vstd::pervasive::unreached(),
        };
        self.registers.reset(pc);
    }

    /// Copies an embedded program into the RAM window at 0x0600 - it must
    /// fit between there and the end of the 2KB physical RAM - and
    /// points the reset vector at it: afterwards the 16-bit read at
    /// 0xFFFC yields 0x0600, so `reset` lands on the program. The vector
    /// goes through the bus's dedicated vector cell; the cartridge ROM
    /// window itself stays unwritable.
    pub fn load(&mut self, program: &Vec<u8>)
        requires
            old(self).wf(),
            program@.len() <= 0x200,
        ensures
            final(self).wf(),
            final(self).bus.cartridge == old(self).bus.cartridge,
            final(self).registers == old(self).registers,
            final(self).bus.reset_vector == Some(0x0600u16),
            final(self).bus.cpu_vram@ == ram_with_program(old(self).bus.cpu_vram@, program@),
            final(self).mem16(0xFFFC) == 0x0600,
    {
        let mut i: usize = 0;
        while i < program.len()
            invariant
                self.wf(),
                frame(*old(self), *self),
                program@.len() <= 0x200,
                i <= program@.len(),
                self.registers == old(self).registers,
                forall|k: int| 0 <= k < i ==> self.bus.cpu_vram@[0x600 + k] == program@[k],
                forall|j: int|
                    0 <= j < 0x800 && !(0x600 <= j < 0x600 + i) ==> self.bus.cpu_vram@[j] == old(
                        self,
                    ).bus.cpu_vram@[j],
            decreases program@.len() - i,
        {
            let address: u16 = 0x0600 + (i as u16);
            assert(address < 0x800 ==> address & 0x07FF == address) by (bit_vector);
            match self.bus.write(address, program[i]) {
                Ok(_) => {},
                Err(_) => {
                    proof {
                        assert(false);
                    }
                },
            }
            i = i + 1;
        }
        self.bus.set_reset_vector(0x0600);
        proof {
            crate::word::lemma_word_parts(lo_byte(0x0600), hi_byte(0x0600), 0x0600);
            assert(self.bus.cpu_vram@ =~= ram_with_program(old(self).bus.cpu_vram@, program@));
        }
    }

    /// Runs the body of the already-fetched instruction `code` (never
    /// BRK): operand resolution, then the per-instruction effect, exactly
    /// as `spec_execute` states it.
    #[verifier::rlimit(100)]
    #[verifier::spinoff_prover]
    pub fn execute_instruction(&mut self, code: u8, mode: AddressingMode) -> (r: Result<(), Fault>)
        requires
            old(self).wf(),
            (spec_decode(code) matches Some(info) && info.mode == mode),
            code != 0x00,
        ensures
            final(self).wf(),
            frame(*old(self), *final(self)),
            machine_of(*final(self)) == spec_execute(machine_of(*old(self)), code).machine,
            r is Ok <==> spec_execute(machine_of(*old(self)), code).result is Ok,
            (r matches Err(f) ==> spec_execute(machine_of(*old(self)), code).result == Err::<
                bool,
                Fault,
            >(f)),
    {
        match code {
            // LDA
            0xA9 | 0xA5 | 0xB5 | 0xAD | 0xBD | 0xB9 | 0xA1 | 0xB1 => {
                let address = self.get_operand_address(mode)?;
                self.load_accumulator_with_memory(address)?;
            },
            // LDX
            0xA2 | 0xA6 | 0xB6 | 0xAE | 0xBE => {
                let address = self.get_operand_address(mode)?;
                self.load_index_x_with_memory(address)?;
            },
            // LDY
            0xA0 | 0xA4 | 0xB4 | 0xAC | 0xBC => {
                let address = self.get_operand_address(mode)?;
                self.load_index_y_with_memory(address)?;
            },
            // STA
            0x85 | 0x95 | 0x8D | 0x9D | 0x99 | 0x81 | 0x91 => {
                let address = self.get_operand_address(mode)?;
                self.store_accumulator_in_memory(address)?;
            },
            // STX
            0x86 | 0x96 | 0x8E => {
                let address = self.get_operand_address(mode)?;
                self.store_index_x_in_memory(address)?;
            },
            // STY
            0x84 | 0x94 | 0x8C => {
                let address = self.get_operand_address(mode)?;
                self.store_index_y_in_memory(address)?;
            },
            // TAX
            0xAA => self.transfer_accumulator_to_index_x(),
            // TAY
            0xA8 => self.transfer_accumulator_to_index_y(),
            // TSX
            0xBA => self.transfer_stack_pointer_to_index_x(),
            // TXA
            0x8A => self.transfer_index_x_to_accumulator(),
            // TXS
            0x9A => self.transfer_index_x_to_stack_register(),
            // TYA
            0x98 => self.transfer_index_y_to_accumulator(),
            // PHA
            0x48 => self.push_accumulator_on_stack(),
            // PHP
            0x08 => self.push_processor_status_on_stack(),
            // PLA
            0x68 => self.pull_accumulator_from_stack(),
            // PLP
            0x28 => self.pull_processor_status_from_stack(),
            // DEC
            0xC6 | 0xD6 | 0xCE | 0xDE => {
                let address = self.get_operand_address(mode)?;
                self.decrement_memory_by_one(address)?;
            },
            // DEX
            0xCA => self.decrement_index_x_by_one(),
            // DEY
            0x88 => self.decrement_index_y_by_one(),
            // INC
            0xE6 | 0xF6 | 0xEE | 0xFE => {
                let address = self.get_operand_address(mode)?;
                let _ = self.increment_memory_by_one(address)?;
            },
            // INX
            0xE8 => self.increment_index_x_by_one(),
            // INY
            0xC8 => self.increment_index_y_by_one(),
            // ADC
            0x69 | 0x65 | 0x75 | 0x6D | 0x7D | 0x79 | 0x61 | 0x71 => {
                let address = self.get_operand_address(mode)?;
                self.add_memory_to_accumulator_with_carry(address)?;
            },
            // SBC
            0xE9 | 0xE5 | 0xF5 | 0xED | 0xFD | 0xF9 | 0xE1 | 0xF1 => {
                let address = self.get_operand_address(mode)?;
                self.subtract_memory_from_accumulator_with_borrow(address)?;
            },
            // AND
            0x29 | 0x25 | 0x35 | 0x2D | 0x3D | 0x39 | 0x21 | 0x31 => {
                let address = self.get_operand_address(mode)?;
                self.and_memory_with_accumulator(address)?;
            },
            // EOR
            0x49 | 0x45 | 0x55 | 0x4D | 0x5D | 0x59 | 0x41 | 0x51 => {
                let address = self.get_operand_address(mode)?;
                self.exclusive_or_memory_with_accumulator(address)?;
            },
            // ORA
            0x09 | 0x05 | 0x15 | 0x0D | 0x1D | 0x19 | 0x01 | 0x11 => {
                let address = self.get_operand_address(mode)?;
                self.or_memory_with_accumulator(address)?;
            },
            // ASL
            0x0A => self.shift_left_one_bit_accumulator(),
            0x06 | 0x16 | 0x0E | 0x1E => {
                let address = self.get_operand_address(mode)?;
                let _ = self.shift_left_one_bit_memory(address)?;
            },
            // LSR
            0x4A => self.shift_one_bit_right_accumulator(),
            0x46 | 0x56 | 0x4E | 0x5E => {
                let address = self.get_operand_address(mode)?;
                let _ = self.shift_one_bit_right_memory(address)?;
            },
            // ROL
            0x2A => self.rotate_one_bit_left_accumulator(),
            0x26 | 0x36 | 0x2E | 0x3E => {
                let address = self.get_operand_address(mode)?;
                let _ = self.rotate_one_bit_left_memory(address)?;
            },
            // ROR
            0x6A => self.rotate_one_bit_right_accumulator(),
            0x66 | 0x76 | 0x6E | 0x7E => {
                let address = self.get_operand_address(mode)?;
                let _ = self.rotate_one_bit_right_memory(address)?;
            },
            // CLC
            0x18 => self.clear_carry_flag(),
            // CLD
            0xD8 => self.clear_decimal_mode(),
            // CLI
            0x58 => self.clear_interrupt_disable_bit(),
            // CLV
            0xB8 => self.clear_overflow_flag(),
            // SEC
            0x38 => self.set_carry_flag(),
            // SED
            0xF8 => self.set_decimal_mode(),
            // SEI
            0x78 => self.set_interrupt_disable_bit(),
            // CMP
            0xC9 | 0xC5 | 0xD5 | 0xCD | 0xDD | 0xD9 | 0xC1 | 0xD1 => {
                let address = self.get_operand_address(mode)?;
                self.compare_memory_with_accumulator(address)?;
            },
            // CPX
            0xE0 | 0xE4 | 0xEC => {
                let address = self.get_operand_address(mode)?;
                self.compare_memory_and_index_x(address)?;
            },
            // CPY
            0xC0 | 0xC4 | 0xCC => {
                let address = self.get_operand_address(mode)?;
                self.compare_memory_and_index_y(address)?;
            },
            // BCC
            0x90 => self.branch_on_carry_clear()?,
            // BCS
            0xB0 => self.branch_on_carry_set()?,
            // BEQ
            0xF0 => self.branch_on_result_zero()?,
            // BMI
            0x30 => self.branch_on_result_minus()?,
            // BNE
            0xD0 => self.branch_on_result_not_zero()?,
            // BPL
            0x10 => self.branch_on_result_plus()?,
            // BVC
            0x50 => self.branch_on_overflow_clear()?,
            // BVS
            0x70 => self.branch_on_overflow_set()?,
            // JMP
            0x4C | 0x6C => {
                let address = self.get_operand_address(mode)?;
                self.jump_to_new_location(address);
            },
            // JSR
            0x20 => self.jump_to_new_location_saving_return_address()?,
            // RTS
            0x60 => self.return_from_subroutine(),
            // RTI
            0x40 => self.return_from_interrupt(),
            // BIT
            0x24 | 0x2C => {
                let address = self.get_operand_address(mode)?;
                self.test_bits_in_memory_with_accumulator(address)?;
            },
            // NOP
            0xEA => {},
            // ALR
            0x4B => {
                let address = self.get_operand_address(mode)?;
                self.alr(address)?;
            },
            // ANC
            0x0B | 0x2B => {
                let address = self.get_operand_address(mode)?;
                self.anc(address)?;
            },
            // ANE
            0x8B => {
                let address = self.get_operand_address(mode)?;
                self.ane_xaa(address)?;
            },
            // DCP
            0xC7 | 0xD7 | 0xCF | 0xDF | 0xDB | 0xC3 | 0xD3 => {
                let address = self.get_operand_address(mode)?;
                self.dcp_dcm(address)?;
            },
            // ISC
            0xE7 | 0xF7 | 0xEF | 0xFF | 0xFB | 0xE3 | 0xF3 => {
                let address = self.get_operand_address(mode)?;
                self.isc_isb_ins(address)?;
            },
            // LAS
            0xBB => {
                let address = self.get_operand_address(mode)?;
                self.las_lar(address)?;
            },
            // LAX
            0xA7 | 0xB7 | 0xAF | 0xBF | 0xA3 | 0xB3 => {
                let address = self.get_operand_address(mode)?;
                self.lax(address)?;
            },
            // RLA
            0x27 | 0x37 | 0x2F | 0x3F | 0x3B | 0x23 | 0x33 => {
                let address = self.get_operand_address(mode)?;
                self.rla(address)?;
            },
            // RRA
            0x67 | 0x77 | 0x6F | 0x7F | 0x7B | 0x63 | 0x73 => {
                let address = self.get_operand_address(mode)?;
                self.rra(address)?;
            },
            // SAX
            0x87 | 0x97 | 0x8F | 0x83 => {
                let address = self.get_operand_address(mode)?;
                self.sax_axs_aax(address)?;
            },
            // SLO
            0x07 | 0x17 | 0x0F | 0x1F | 0x1B | 0x03 | 0x13 => {
                let address = self.get_operand_address(mode)?;
                self.slo_aso(address)?;
            },
            // SRE
            0x47 | 0x57 | 0x4F | 0x5F | 0x5B | 0x43 | 0x53 => {
                let address = self.get_operand_address(mode)?;
                self.sre_lse(address)?;
            },
            // USBC
            0xEB => {
                let address = self.get_operand_address(mode)?;
                self.subtract_memory_from_accumulator_with_borrow(address)?;
            },
            // One-byte and multi-byte NOP forms.
            0x1A | 0x3A | 0x5A | 0x7A | 0xDA | 0xFA => {},
            0x80 | 0x82 | 0x89 | 0xC2 | 0xE2 => {},
            0x04 | 0x44 | 0x64 | 0x14 | 0x34 | 0x54 | 0x74 | 0xD4 | 0xF4 | 0x0C => {},
            0x1C | 0x3C | 0x5C | 0x7C | 0xDC | 0xFC => {},
            _ => {
                // Unreachable: every opcode the table recognizes, BRK
                // aside, has an arm above.
                proof {
                    assert(false);
                }
            },
        }
        Ok(())
    }


    /// One iteration of the fetch-decode-execute loop: fetch the opcode
    /// at the program counter, advance past it, look it up in the
    /// instruction table, resolve its addressing mode and run its body,
    /// then advance over the operand bytes unless the instruction already
    /// redirected control flow. Returns `Ok(true)` to continue, and
    /// `Ok(false)` exactly when the fetched opcode was BRK (0x00), which
    /// this core deliberately treats as a plain halt rather than the full
    /// interrupt-vectoring sequence.
    #[verifier::rlimit(100)]
    pub fn step(&mut self) -> (r: Result<bool, Fault>)
        requires
            old(self).wf(),
        ensures
            final(self).wf(),
            frame(*old(self), *final(self)),
            machine_of(*final(self)) == spec_step(machine_of(*old(self))).machine,
            (r matches Ok(proceed) ==> spec_step(machine_of(*old(self))).result == Ok::<
                bool,
                Fault,
            >(proceed)),
            (r matches Err(f) ==> spec_step(machine_of(*old(self))).result == Err::<bool, Fault>(
                f,
            )),
    {
        let pc = self.registers.program_counter;
        let code = self.bus.read(pc)?;

        self.registers.program_counter = pc.wrapping_add(1);
        let program_counter_state = self.registers.program_counter;
        let ghost m1 = machine_of(*self);

        let info = match decode(code) {
            Some(info) => info,
            None => {
                return Err(Fault::UnrecognizedOpcode { opcode: code, address: pc });
            },
        };
        let mode = info.mode;

        if code == 0x00 {
            // BRK: deliberately a plain halt, not the full
            // interrupt-vectoring sequence.
            return Ok(false);
        }
        match self.execute_instruction(code, mode) {
            Ok(_) => {},
            Err(f) => {
                return Err(f);
            },
        }
        proof {
            assert(machine_of(*self) == spec_execute(m1, code).machine);
        }
        if program_counter_state == self.registers.program_counter {
            self.registers.program_counter = self.registers.program_counter.wrapping_add(
                (info.length - 1) as u16,
            );
        }
        Ok(true)
    }

    /// Drives the fetch-decode-execute loop until BRK halts it or a fault
    /// surfaces. The loop carries a step budget of 2^64 - 1 iterations so
    /// its termination is provable; the budget lies far beyond any
    /// physically reachable execution length, and exhausting it simply
    /// stops the loop as a halt would.
    pub fn run(&mut self) -> (r: Result<(), Fault>)
        requires
            old(self).wf(),
        ensures
            final(self).wf(),
            frame(*old(self), *final(self)),
            machine_of(*final(self)) == spec_run(machine_of(*old(self)), RUN_FUEL as nat).machine,
            r is Ok <==> spec_run(machine_of(*old(self)), RUN_FUEL as nat).result is Ok,
            (r matches Err(f) ==> spec_run(machine_of(*old(self)), RUN_FUEL as nat).result
                == Err::<(), Fault>(f)),
    {
        let mut fuel: u64 = RUN_FUEL;
        loop
            invariant
                self.wf(),
                frame(*old(self), *self),
                spec_run(machine_of(*self), fuel as nat) == spec_run(
                    machine_of(*old(self)),
                    RUN_FUEL as nat,
                ),
            decreases fuel,
        {
            if fuel == 0 {
                return Ok(());
            }
            let proceed = self.step()?;
            if !proceed {
                return Ok(());
            }
            fuel = fuel - 1;
        }
    }

    /// Like `run`, but invokes `callback` once per loop iteration,
    /// immediately before the fetch, so the observer sees the state
    /// as-of the start of each instruction. The callback only observes:
    /// it cannot mutate the processor.
    pub fn run_with_callback<F: Fn(&CPU)>(&mut self, callback: F) -> (r: Result<(), Fault>)
        requires
            old(self).wf(),
            forall|cpu: &CPU| #[trigger] callback.requires((cpu,)),
        ensures
            final(self).wf(),
            frame(*old(self), *final(self)),
            machine_of(*final(self)) == spec_run(machine_of(*old(self)), RUN_FUEL as nat).machine,
            r is Ok <==> spec_run(machine_of(*old(self)), RUN_FUEL as nat).result is Ok,
            (r matches Err(f) ==> spec_run(machine_of(*old(self)), RUN_FUEL as nat).result
                == Err::<(), Fault>(f)),
    {
        let mut fuel: u64 = RUN_FUEL;
        loop
            invariant
                self.wf(),
                frame(*old(self), *self),
                forall|cpu: &CPU| #[trigger] callback.requires((cpu,)),
                spec_run(machine_of(*self), fuel as nat) == spec_run(
                    machine_of(*old(self)),
                    RUN_FUEL as nat,
                ),
            decreases fuel,
        {
            if fuel == 0 {
                return Ok(());
            }
            callback(&*self);
            let proceed = self.step()?;
            if !proceed {
                return Ok(());
            }
            fuel = fuel - 1;
        }
    }

    /// Composes load, reset and run: the program lands at 0x0600, reset
    /// reads the freshly pointed vector and execution proceeds from
    /// there until BRK or a fault.
    pub fn load_and_run(&mut self, program: &Vec<u8>) -> (r: Result<(), Fault>)
        requires
            old(self).wf(),
            program@.len() <= 0x200,
        ensures
            final(self).wf(),
            final(self).bus.cartridge == old(self).bus.cartridge,
            ({
                let start = Machine {
                    regs: Registers {
                        a: 0,
                        x: 0,
                        y: 0,
                        status: 0x24,
                        stack_pointer: 0xFD,
                        program_counter: 0x0600,
                    },
                    ram: ram_with_program(old(self).bus.cpu_vram@, program@),
                    prg: old(self).bus.cartridge.prg_rom@,
                    vector: Some(0x0600),
                };
                &&& machine_of(*final(self)) == spec_run(start, RUN_FUEL as nat).machine
                &&& (r is Ok <==> spec_run(start, RUN_FUEL as nat).result is Ok)
                &&& (r matches Err(f) ==> spec_run(start, RUN_FUEL as nat).result == Err::<
                    (),
                    Fault,
                >(f))
            }),
    {
        self.load(program);
        self.reset();
        self.run()
    }
}

/// The JSR/RTS round trip: starting from a JSR opcode at address `entry`
/// with stack pointer `sp`, pushing the return address (the JSR's last
/// byte) and pulling it back with the RTS `+ 1` adjustment restores the
/// program counter to `entry + 3` - the byte after the 3-byte JSR - and
/// the stack pointer to its pre-call value. The formulas below are
/// exactly the ones in the contracts of
/// `jump_to_new_location_saving_return_address` and
/// `return_from_subroutine`, with `pc` the counter after the opcode
/// fetch.
pub proof fn lemma_jsr_rts_round_trip(
    ram: Seq<u8>,
    prg: Seq<u8>,
    vector: Option<u16>,
    entry: u16,
    sp: u8,
)
    requires
        ram.len() == 0x800,
    ensures
        ({
            let pc = u16_specs::wrapping_add(entry, 1);
            let ret = u16_specs::wrapping_add(pc, 1);
            let ram2 = ram.update(0x0100 + sp as int, hi_byte(ret)).update(
                0x0100 + u8_specs::wrapping_sub(sp, 1) as int,
                lo_byte(ret),
            );
            let sp2 = u8_specs::wrapping_sub(u8_specs::wrapping_sub(sp, 1), 1);
            let lo = decoded_read(ram2, prg, vector, stack_addr(u8_specs::wrapping_add(sp2, 1)));
            let hi = decoded_read(
                ram2,
                prg,
                vector,
                stack_addr(u8_specs::wrapping_add(u8_specs::wrapping_add(sp2, 1), 1)),
            );
            &&& u8_specs::wrapping_add(u8_specs::wrapping_add(sp2, 1), 1) == sp
            &&& u16_specs::wrapping_add(word(lo, hi), 1) == u16_specs::wrapping_add(entry, 3)
        }),
{
    let pc = u16_specs::wrapping_add(entry, 1);
    let ret = u16_specs::wrapping_add(pc, 1);
    let sp1 = u8_specs::wrapping_sub(sp, 1);
    let sp2 = u8_specs::wrapping_sub(sp1, 1);
    lemma_stack_addr(u8_specs::wrapping_add(sp2, 1));
    lemma_stack_addr(sp);
    assert(u8_specs::wrapping_add(sp2, 1) == sp1);
    assert(u8_specs::wrapping_add(sp1, 1) == sp);
    crate::word::lemma_word_parts(lo_byte(ret), hi_byte(ret), ret);
}

} // verus!
