use nes_core::bus::Bus;
use nes_core::cartridge::Cartridge;
use nes_core::cpu::CPU;
use nes_core::fault::Fault;
use nes_core::status_flags::{CARRY, NEGATIVE, ZERO};

fn test_cartridge() -> Cartridge {
    let mut image = vec![
        0x4E, 0x45, 0x53, 0x1A, 0x02, 0x01, 0x31, 0x00, 0x00, 0x00, 0x00, 0x00, 0x00, 0x00,
        0x00, 0x00,
    ];
    image.extend(vec![1u8; 2 * 16384]);
    image.extend(vec![2u8; 8192]);
    Cartridge::new(&image).unwrap()
}

/// Places `program` into RAM at 0x0600 by direct bus writes and points
/// the program counter at it, for tests that set memory up by hand.
fn cpu_with_program(program: &[u8]) -> CPU {
    let mut bus = Bus::new(test_cartridge());
    for (i, b) in program.iter().enumerate() {
        bus.write(0x0600 + i as u16, *b).unwrap();
    }
    let mut cpu = CPU::new(bus);
    cpu.registers.program_counter = 0x0600;
    cpu
}

fn fresh_cpu() -> CPU {
    CPU::new(Bus::new(test_cartridge()))
}

#[test]
fn test_lda_immediate_load_data() {
    let mut cpu = fresh_cpu();
    cpu.load_and_run(&vec![0xA9, 0x05, 0x00]).unwrap();
    assert_eq!(cpu.registers.a, 0x05);
    assert!(!cpu.registers.get_flag(ZERO));
    assert!(!cpu.registers.get_flag(NEGATIVE));
}

#[test]
fn test_lda_zero_flag() {
    let mut cpu = fresh_cpu();
    cpu.load_and_run(&vec![0xA9, 0x00, 0x00]).unwrap();
    assert!(cpu.registers.get_flag(ZERO));
}

#[test]
fn test_inx_twice() {
    let mut cpu = fresh_cpu();
    cpu.load_and_run(&vec![0xE8, 0xE8, 0x00]).unwrap();
    assert_eq!(cpu.registers.x, 2);
}

#[test]
fn test_lda_tax_inx_together() {
    let mut cpu = fresh_cpu();
    cpu.load_and_run(&vec![0xA9, 0xC0, 0xAA, 0xE8, 0x00]).unwrap();
    assert_eq!(cpu.registers.x, 0xC1);
}

#[test]
fn test_inx_overflow_wraps() {
    let mut cpu = cpu_with_program(&[0xE8, 0xE8, 0x00]);
    cpu.registers.x = 0xFF;
    cpu.run().unwrap();
    assert_eq!(cpu.registers.x, 1);
}

#[test]
fn test_indirect_jmp_page_boundary_quirk() {
    // A pointer stored at 0x02FF takes its high byte from 0x0200, the
    // start of the same page, not from 0x0300.
    let mut cpu = cpu_with_program(&[0x6C, 0xFF, 0x02]);
    cpu.bus.write(0x02FF, 0x34).unwrap();
    cpu.bus.write(0x0300, 0x12).unwrap(); // would be used without the quirk
    cpu.bus.write(0x0200, 0x05).unwrap(); // quirk: high byte comes from here
    // The quirk target holds LDA #$77 BRK; the no-quirk target would halt
    // with the accumulator untouched.
    cpu.bus.write(0x0534, 0xA9).unwrap();
    cpu.bus.write(0x0535, 0x77).unwrap();
    cpu.bus.write(0x0536, 0x00).unwrap();
    cpu.run().unwrap();
    assert_eq!(cpu.registers.a, 0x77);
}

#[test]
fn test_jsr_rts_round_trip() {
    // JSR at 0x0600 to a subroutine holding only RTS: control returns to
    // 0x0603 (the byte after the 3-byte JSR) with the stack pointer
    // restored; the BRK there halts with the counter at 0x0604.
    let mut cpu = cpu_with_program(&[0x20, 0x10, 0x06, 0x00]);
    cpu.bus.write(0x0610, 0x60).unwrap();
    let sp_before = cpu.registers.stack_pointer;
    cpu.run().unwrap();
    assert_eq!(cpu.registers.program_counter, 0x0604);
    assert_eq!(cpu.registers.stack_pointer, sp_before);
}

#[test]
fn test_sbc_sets_borrow_complement() {
    // SEC; LDA #$10; SBC #$08 -> 0x08 with carry (no borrow) set.
    let mut cpu = cpu_with_program(&[0x38, 0xA9, 0x10, 0xE9, 0x08, 0x00]);
    cpu.run().unwrap();
    assert_eq!(cpu.registers.a, 0x08);
    assert!(cpu.registers.get_flag(CARRY));
}

#[test]
fn test_php_plp_break_bits() {
    // PHP pushes Break and Unused set; PLP restores with Break cleared
    // and Unused set.
    let mut cpu = cpu_with_program(&[0x08, 0x28, 0x00]);
    cpu.registers.status = 0x00;
    cpu.run().unwrap();
    // The pushed copy had 0x30 forced in; the pull clears Break, keeps
    // Unused.
    assert_eq!(cpu.registers.status & 0x10, 0x00);
    assert_eq!(cpu.registers.status & 0x20, 0x20);
}

#[test]
fn test_unrecognized_opcode_is_fatal() {
    let mut cpu = cpu_with_program(&[0x02]);
    assert_eq!(
        cpu.run(),
        Err(Fault::UnrecognizedOpcode {
            opcode: 0x02,
            address: 0x0600
        })
    );
}

#[test]
fn test_ppu_window_fetch_is_fatal() {
    let mut cpu = cpu_with_program(&[]);
    cpu.registers.program_counter = 0x2000;
    assert_eq!(cpu.run(), Err(Fault::PpuRead { address: 0x2000 }));
}

#[test]
fn test_sta_to_rom_is_fatal() {
    // STA $8000 must stop execution: ROM is not writable.
    let mut cpu = cpu_with_program(&[0xA9, 0x01, 0x8D, 0x00, 0x80, 0x00]);
    assert_eq!(cpu.run(), Err(Fault::RomWrite { address: 0x8000 }));
}

#[test]
fn test_reset_reads_vector_from_cartridge() {
    // The test cartridge's PRG ROM is all 0x01, so the reset vector at
    // 0xFFFC reads as 0x0101.
    let bus = Bus::new(test_cartridge());
    let mut cpu = CPU::new(bus);
    cpu.registers.program_counter = 0x0600;
    cpu.registers.a = 9;
    cpu.reset();
    assert_eq!(cpu.registers.program_counter, 0x0101);
    assert_eq!(cpu.registers.a, 0);
    assert_eq!(cpu.registers.status, 0x24);
    assert_eq!(cpu.registers.stack_pointer, 0xFD);
}

#[test]
fn test_load_copies_program_and_points_reset_vector() {
    // The embedded-program loader copies the bytes into the RAM window
    // at 0x0600 and points the reset vector there, so the vector reads
    // back as 0x0600 and reset lands on the program. ROM stays
    // unwritable.
    let bus = Bus::new(test_cartridge());
    let mut cpu = CPU::new(bus);
    let program = vec![0xA9u8, 0x05, 0x00];
    cpu.load(&program);
    assert_eq!(cpu.bus.read(0x0600).unwrap(), 0xA9);
    assert_eq!(cpu.bus.read(0x0601).unwrap(), 0x05);
    assert_eq!(cpu.bus.read(0x0602).unwrap(), 0x00);
    assert_eq!(cpu.bus.read_u16(0xFFFC).unwrap(), 0x0600);
    assert_eq!(
        cpu.bus.write(0x8000, 1),
        Err(Fault::RomWrite { address: 0x8000 })
    );
    cpu.reset();
    assert_eq!(cpu.registers.program_counter, 0x0600);
}

#[test]
fn test_branch_taken_and_not_taken() {
    // LDA #$01 (Z clear); BNE +2 skips the LDX #$44; BRK.
    let mut cpu = cpu_with_program(&[0xA9, 0x01, 0xD0, 0x02, 0xA2, 0x44, 0x00]);
    cpu.run().unwrap();
    assert_eq!(cpu.registers.x, 0x00);
    // LDA #$00 (Z set); BNE not taken: LDX #$44 executes.
    let mut cpu = cpu_with_program(&[0xA9, 0x00, 0xD0, 0x02, 0xA2, 0x44, 0x00]);
    cpu.run().unwrap();
    assert_eq!(cpu.registers.x, 0x44);
}

#[test]
fn test_stack_push_pull_round_trip() {
    // LDA #$7A; PHA; LDA #$00; PLA: the accumulator comes back.
    let mut cpu = cpu_with_program(&[0xA9, 0x7A, 0x48, 0xA9, 0x00, 0x68, 0x00]);
    cpu.run().unwrap();
    assert_eq!(cpu.registers.a, 0x7A);
    assert_eq!(cpu.registers.stack_pointer, 0xFD);
}

#[test]
fn test_sta_to_ppu_window_is_fatal() {
    // STA $2000: the PPU register window is unimplemented, never dropped.
    let mut cpu = cpu_with_program(&[0xA9, 0x01, 0x8D, 0x00, 0x20, 0x00]);
    assert_eq!(cpu.run(), Err(Fault::PpuWrite { address: 0x2000 }));
}

#[test]
fn test_indexed_indirect_addressing() {
    // LDA ($00,X) with X=1: the pointer at zero page 0x01/0x02 is 0x0705.
    let mut cpu = cpu_with_program(&[0xA2, 0x01, 0xA1, 0x00, 0x00]);
    cpu.bus.write(0x01, 0x05).unwrap();
    cpu.bus.write(0x02, 0x07).unwrap();
    cpu.bus.write(0x0705, 0x0A).unwrap();
    cpu.run().unwrap();
    assert_eq!(cpu.registers.a, 0x0A);
}

#[test]
fn test_indirect_indexed_addressing() {
    // LDA ($01),Y with Y=1: the pointer at 0x01/0x02 is 0x0703, plus Y.
    let mut cpu = cpu_with_program(&[0xA0, 0x01, 0xB1, 0x01, 0x00]);
    cpu.bus.write(0x01, 0x03).unwrap();
    cpu.bus.write(0x02, 0x07).unwrap();
    cpu.bus.write(0x0704, 0x0A).unwrap();
    cpu.run().unwrap();
    assert_eq!(cpu.registers.a, 0x0A);
}

#[test]
fn test_zero_page_x_wraps_within_page() {
    // STA $FF,X with X=5 lands at 0x04, wrapping within the zero page.
    let mut cpu = cpu_with_program(&[0xA9, 0x77, 0xA2, 0x05, 0x95, 0xFF, 0x00]);
    cpu.run().unwrap();
    assert_eq!(cpu.bus.read(0x0004).unwrap(), 0x77);
}

#[test]
fn test_dec_and_asl_memory_forms() {
    // DEC $10 wraps 0x00 to 0xFF; ASL $11 shifts 0x81 out into Carry.
    let mut cpu = cpu_with_program(&[0xC6, 0x10, 0x06, 0x11, 0x00]);
    cpu.bus.write(0x10, 0x00).unwrap();
    cpu.bus.write(0x11, 0x81).unwrap();
    cpu.run().unwrap();
    assert_eq!(cpu.bus.read(0x10).unwrap(), 0xFF);
    assert_eq!(cpu.bus.read(0x11).unwrap(), 0x02);
    assert!(cpu.registers.get_flag(CARRY));
}

#[test]
fn test_compare_flag_table() {
    // CMP #$20 for the three relations of accumulator and operand.
    // Register < operand: Z=0 C=0.
    let mut cpu = cpu_with_program(&[0xA9, 0x10, 0xC9, 0x20, 0x00]);
    cpu.run().unwrap();
    assert!(!cpu.registers.get_flag(ZERO));
    assert!(!cpu.registers.get_flag(CARRY));
    // Register = operand: Z=1 C=1 N=0.
    let mut cpu = cpu_with_program(&[0xA9, 0x20, 0xC9, 0x20, 0x00]);
    cpu.run().unwrap();
    assert!(cpu.registers.get_flag(ZERO));
    assert!(cpu.registers.get_flag(CARRY));
    assert!(!cpu.registers.get_flag(NEGATIVE));
    // Register > operand: Z=0 C=1.
    let mut cpu = cpu_with_program(&[0xA9, 0x30, 0xC9, 0x20, 0x00]);
    cpu.run().unwrap();
    assert!(!cpu.registers.get_flag(ZERO));
    assert!(cpu.registers.get_flag(CARRY));
}

#[test]
fn test_bit_sets_negative_and_overflow_from_memory() {
    // BIT $10 with memory 0xC0 and accumulator 0x01: Z set (no common
    // bits), N and V copied from bits 7 and 6.
    let mut cpu = cpu_with_program(&[0xA9, 0x01, 0x24, 0x10, 0x00]);
    cpu.bus.write(0x10, 0xC0).unwrap();
    cpu.run().unwrap();
    assert!(cpu.registers.get_flag(ZERO));
    assert!(cpu.registers.get_flag(NEGATIVE));
    assert!(cpu.registers.get_flag(nes_core::status_flags::OVERFLOW));
}

#[test]
fn test_lax_loads_both_registers() {
    // LAX $10 (undocumented): accumulator and X take the memory byte.
    let mut cpu = cpu_with_program(&[0xA7, 0x10, 0x00]);
    cpu.bus.write(0x10, 0x5E).unwrap();
    cpu.run().unwrap();
    assert_eq!(cpu.registers.a, 0x5E);
    assert_eq!(cpu.registers.x, 0x5E);
}

#[test]
fn test_step_reports_brk_halt() {
    let mut cpu = cpu_with_program(&[0xE8, 0x00]);
    assert_eq!(cpu.step(), Ok(true));
    assert_eq!(cpu.registers.x, 1);
    assert_eq!(cpu.step(), Ok(false));
    assert_eq!(cpu.registers.program_counter, 0x0602);
}

#[test]
fn test_run_with_callback_matches_run() {
    // The observer-callback loop computes exactly what the plain run
    // loop computes.
    let mut observed = cpu_with_program(&[0xA9, 0x2C, 0xAA, 0xE8, 0x00]);
    let mut plain = cpu_with_program(&[0xA9, 0x2C, 0xAA, 0xE8, 0x00]);
    observed.run_with_callback(|_cpu: &CPU| {}).unwrap();
    plain.run().unwrap();
    assert_eq!(observed.registers, plain.registers);
}
