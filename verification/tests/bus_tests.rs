use nes_core::bus::Bus;
use nes_core::cartridge::Cartridge;
use nes_core::fault::Fault;

fn cartridge_with_prg(prg: Vec<u8>) -> Cartridge {
    let mut image = vec![
        0x4E, 0x45, 0x53, 0x1A, (prg.len() / 16384) as u8, 0x01, 0x00, 0x00, 0x00, 0x00, 0x00,
        0x00, 0x00, 0x00, 0x00, 0x00,
    ];
    image.extend(&prg);
    image.extend(vec![0u8; 8192]);
    Cartridge::new(&image).unwrap()
}

#[test]
fn test_ram_mirroring_round_trip() {
    // For every address in the RAM window, a write to the physical index
    // is visible both at the address and at its mirror base.
    let mut bus = Bus::new(cartridge_with_prg(vec![0; 32768]));
    for addr in 0x0000..0x2000u16 {
        let value = (addr % 251) as u8;
        bus.write(addr & 0x07FF, value).unwrap();
        assert_eq!(bus.read(addr).unwrap(), value);
        assert_eq!(bus.read(addr).unwrap(), bus.read(addr & 0x07FF).unwrap());
    }
}

#[test]
fn test_rom_bank_mirroring_round_trip() {
    // A 16KB PRG ROM serves the upper bank as a mirror of the lower.
    let mut prg = vec![0u8; 16384];
    for (i, b) in prg.iter_mut().enumerate() {
        *b = (i % 253) as u8;
    }
    let bus = Bus::new(cartridge_with_prg(prg.clone()));
    for k in 0..0x4000u16 {
        assert_eq!(bus.read(0x8000 + k).unwrap(), prg[k as usize]);
        assert_eq!(bus.read(0x8000 + k).unwrap(), bus.read(0xC000 + k).unwrap());
    }
}

#[test]
fn test_32k_rom_has_distinct_banks() {
    let mut prg = vec![0u8; 32768];
    prg[0x0000] = 0x11;
    prg[0x4000] = 0x22;
    let bus = Bus::new(cartridge_with_prg(prg));
    assert_eq!(bus.read(0x8000).unwrap(), 0x11);
    assert_eq!(bus.read(0xC000).unwrap(), 0x22);
}

#[test]
fn test_ppu_window_access_is_fatal() {
    let mut bus = Bus::new(cartridge_with_prg(vec![0; 32768]));
    assert_eq!(bus.read(0x2000), Err(Fault::PpuRead { address: 0x2000 }));
    assert_eq!(bus.read(0x3FFF), Err(Fault::PpuRead { address: 0x3FFF }));
    assert_eq!(
        bus.write(0x2345, 1),
        Err(Fault::PpuWrite { address: 0x2345 })
    );
}

#[test]
fn test_rom_write_is_fatal() {
    let mut bus = Bus::new(cartridge_with_prg(vec![0; 32768]));
    assert_eq!(
        bus.write(0x8000, 0x42),
        Err(Fault::RomWrite { address: 0x8000 })
    );
    assert_eq!(
        bus.write(0xFFFC, 0x42),
        Err(Fault::RomWrite { address: 0xFFFC })
    );
}

#[test]
fn test_out_of_range_access_is_absorbed() {
    // Reads in the unmapped range yield 0; writes are dropped.
    let mut bus = Bus::new(cartridge_with_prg(vec![0; 32768]));
    assert_eq!(bus.read(0x4000).unwrap(), 0);
    assert_eq!(bus.read(0x7FFF).unwrap(), 0);
    bus.write(0x5000, 0x99).unwrap();
    assert_eq!(bus.read(0x5000).unwrap(), 0);
}

#[test]
fn test_u16_round_trip_is_little_endian() {
    let mut bus = Bus::new(cartridge_with_prg(vec![0; 32768]));
    bus.write_u16(0x0200, 0xABCD).unwrap();
    assert_eq!(bus.read(0x0200).unwrap(), 0xCD);
    assert_eq!(bus.read(0x0201).unwrap(), 0xAB);
    assert_eq!(bus.read_u16(0x0200).unwrap(), 0xABCD);
}

#[test]
fn test_write_u16_straddling_window_edge() {
    // A 16-bit write at 0x1FFF: the low byte lands behind the RAM
    // mirror, then the high-byte write at 0x2000 is the fatal PPU fault.
    let mut bus = Bus::new(cartridge_with_prg(vec![0; 32768]));
    assert_eq!(
        bus.write_u16(0x1FFF, 0xABCD),
        Err(Fault::PpuWrite { address: 0x2000 })
    );
    assert_eq!(bus.read(0x07FF).unwrap(), 0xCD);
    // In the dropped range both byte writes are absorbed.
    bus.write_u16(0x5000, 0xABCD).unwrap();
    assert_eq!(bus.read(0x5000).unwrap(), 0);
    assert_eq!(bus.read(0x5001).unwrap(), 0);
}
