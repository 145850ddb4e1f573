use nes_core::bus::Bus;
use nes_core::cartridge::Cartridge;
use nes_core::cpu::CPU;
use nes_core::fault::Fault;
use nes_core::trace::trace;

fn test_rom() -> Cartridge {
    let mut image = vec![
        0x4E, 0x45, 0x53, 0x1A, 0x02, 0x01, 0x31, 0x00, 0x00, 0x00, 0x00, 0x00, 0x00, 0x00,
        0x00, 0x00,
    ];
    image.extend(vec![1u8; 2 * 16384]);
    image.extend(vec![2u8; 8192]);
    Cartridge::new(&image).unwrap()
}

#[test]
fn test_trace_rejects_unrecognized_opcode() {
    let mut bus = Bus::new(test_rom());
    bus.write(0x0600, 0x02).unwrap();
    let mut cpu = CPU::new(bus);
    cpu.registers.program_counter = 0x0600;
    assert_eq!(
        trace(&cpu),
        Err(Fault::UnrecognizedOpcode {
            opcode: 0x02,
            address: 0x0600
        })
    );
}

#[test]
fn test_trace_rejects_ppu_window_fetch() {
    let bus = Bus::new(test_rom());
    let mut cpu = CPU::new(bus);
    cpu.registers.program_counter = 0x2000;
    assert_eq!(trace(&cpu), Err(Fault::PpuRead { address: 0x2000 }));
}

#[test]
fn test_fault_kind_names() {
    assert_eq!(
        Fault::PpuRead { address: 0x2000 }.kind_name(),
        "PPU register window read"
    );
    assert_eq!(
        Fault::PpuWrite { address: 0x2000 }.kind_name(),
        "PPU register window write"
    );
    assert_eq!(
        Fault::RomWrite { address: 0x8000 }.kind_name(),
        "write to cartridge ROM space"
    );
    assert_eq!(
        Fault::UnrecognizedOpcode {
            opcode: 0x02,
            address: 0
        }
        .kind_name(),
        "unrecognized opcode"
    );
}
