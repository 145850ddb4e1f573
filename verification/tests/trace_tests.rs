use nes_core::bus::Bus;
use nes_core::cartridge::Cartridge;
use nes_core::cpu::CPU;
use nes_core::trace::trace;

fn test_rom() -> Cartridge {
    let mut image = vec![
        0x4E, 0x45, 0x53, 0x1A, 0x02, 0x01, 0x31, 0x00, 0x00, 0x00, 0x00, 0x00, 0x00, 0x00,
        0x00, 0x00,
    ];
    image.extend(vec![1u8; 2 * 16384]);
    image.extend(vec![2u8; 8192]);
    Cartridge::new(&image).unwrap()
}

/// Runs the processor to the halt, collecting one trace line before each
/// fetch, exactly as a tracing callback would observe the loop.
fn run_collecting_trace(cpu: &mut CPU) -> Vec<String> {
    let mut result: Vec<String> = vec![];
    loop {
        result.push(trace(cpu).unwrap());
        match cpu.step().unwrap() {
            true => {}
            false => break,
        }
    }
    result
}

#[test]
fn test_format_trace() {
    let mut bus = Bus::new(test_rom());
    bus.write(100, 0xA2).unwrap();
    bus.write(101, 0x01).unwrap();
    bus.write(102, 0xCA).unwrap();
    bus.write(103, 0x88).unwrap();
    bus.write(104, 0x00).unwrap();

    let mut cpu = CPU::new(bus);
    cpu.registers.program_counter = 0x64;
    cpu.registers.a = 1;
    cpu.registers.x = 2;
    cpu.registers.y = 3;
    let result = run_collecting_trace(&mut cpu);
    assert_eq!(
        "0064  A2 01     LDX #$01                        A:01 X:02 Y:03 P:24 SP:FD",
        result[0]
    );
    assert_eq!(
        "0066  CA        DEX                             A:01 X:01 Y:03 P:24 SP:FD",
        result[1]
    );
    assert_eq!(
        "0067  88        DEY                             A:01 X:00 Y:03 P:26 SP:FD",
        result[2]
    );
}

#[test]
fn test_format_mem_access() {
    let mut bus = Bus::new(test_rom());
    // ORA ($33), Y
    bus.write(100, 0x11).unwrap();
    bus.write(101, 0x33).unwrap();

    // data
    bus.write(0x33, 0x00).unwrap();
    bus.write(0x34, 0x04).unwrap();

    // target cell
    bus.write(0x400, 0xAA).unwrap();

    let mut cpu = CPU::new(bus);
    cpu.registers.program_counter = 0x64;
    cpu.registers.y = 0;
    let result = run_collecting_trace(&mut cpu);
    assert_eq!(
        "0064  11 33     ORA ($33),Y = 0400 @ 0400 = AA  A:00 X:00 Y:00 P:24 SP:FD",
        result[0]
    );
}
