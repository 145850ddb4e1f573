use nes_core::cartridge::{Cartridge, Mirroring};

struct TestRom {
    header: Vec<u8>,
    trainer: Option<Vec<u8>>,
    pgp_rom: Vec<u8>,
    chr_rom: Vec<u8>,
}

fn create_rom(rom: TestRom) -> Vec<u8> {
    let mut result = Vec::with_capacity(
        rom.header.len()
            + rom.trainer.as_ref().map_or(0, |t| t.len())
            + rom.pgp_rom.len()
            + rom.chr_rom.len(),
    );

    result.extend(&rom.header);
    if let Some(t) = rom.trainer {
        result.extend(t);
    }
    result.extend(&rom.pgp_rom);
    result.extend(&rom.chr_rom);

    result
}

#[test]
fn test() {
    let test_rom = create_rom(TestRom {
        header: vec![
            0x4E, 0x45, 0x53, 0x1A, 0x02, 0x01, 0x31, 00, 00, 00, 00, 00, 00, 00, 00, 00,
        ],
        trainer: None,
        pgp_rom: vec![1; 2 * 16384],
        chr_rom: vec![2; 1 * 8192],
    });

    let rom: Cartridge = Cartridge::new(&test_rom).unwrap();

    assert_eq!(rom.chr_rom, vec![2; 1 * 8192]);
    assert_eq!(rom.prg_rom, vec![1; 2 * 16384]);
    assert_eq!(rom.mapper, 3);
    assert_eq!(rom.nametable_mirroring, Mirroring::Vertical);
}

#[test]
fn test_with_trainer() {
    let test_rom = create_rom(TestRom {
        header: vec![
            0x4E,
            0x45,
            0x53,
            0x1A,
            0x02,
            0x01,
            0x31 | 0b100,
            00,
            00,
            00,
            00,
            00,
            00,
            00,
            00,
            00,
        ],
        trainer: Some(vec![0; 512]),
        pgp_rom: vec![1; 2 * 16384],
        chr_rom: vec![2; 1 * 8192],
    });

    let rom: Cartridge = Cartridge::new(&test_rom).unwrap();

    assert_eq!(rom.chr_rom, vec![2; 1 * 8192]);
    assert_eq!(rom.prg_rom, vec![1; 2 * 16384]);
    assert_eq!(rom.mapper, 3);
    assert_eq!(rom.nametable_mirroring, Mirroring::Vertical);
}

#[test]
fn test_nes2_is_not_supported() {
    let test_rom = create_rom(TestRom {
        header: vec![
            0x4E, 0x45, 0x53, 0x1A, 0x01, 0x01, 0x31, 0x8, 00, 00, 00, 00, 00, 00, 00, 00,
        ],
        trainer: None,
        pgp_rom: vec![1; 1 * 16384],
        chr_rom: vec![2; 1 * 8192],
    });
    let rom = Cartridge::new(&test_rom);
    match rom {
        Result::Ok(_) => assert!(false, "should not load rom"),
        Result::Err(str) => assert_eq!(str, "NES 2.0 format is not supported"),
    }
}

fn header_with_byte6(byte6: u8) -> Vec<u8> {
    create_rom(TestRom {
        header: vec![
            0x4E, 0x45, 0x53, 0x1A, 0x01, 0x01, byte6, 00, 00, 00, 00, 00, 00, 00, 00, 00,
        ],
        trainer: None,
        pgp_rom: vec![0; 16384],
        chr_rom: vec![0; 8192],
    })
}

#[test]
fn test_mirroring_truth_table() {
    // four-screen = 0, vertical = 0
    let rom = Cartridge::new(&header_with_byte6(0x00)).unwrap();
    assert_eq!(rom.nametable_mirroring, Mirroring::Horizontal);
    // four-screen = 0, vertical = 1
    let rom = Cartridge::new(&header_with_byte6(0x01)).unwrap();
    assert_eq!(rom.nametable_mirroring, Mirroring::Vertical);
    // four-screen = 1, vertical = 0
    let rom = Cartridge::new(&header_with_byte6(0x08)).unwrap();
    assert_eq!(rom.nametable_mirroring, Mirroring::FourScreen);
    // four-screen = 1, vertical = 1: four-screen wins
    let rom = Cartridge::new(&header_with_byte6(0x09)).unwrap();
    assert_eq!(rom.nametable_mirroring, Mirroring::FourScreen);
}

#[test]
fn test_rom_sizes_follow_header() {
    // PRG ROM length is 16384 per unit of header byte 4, CHR ROM length
    // 8192 per unit of header byte 5.
    let image = create_rom(TestRom {
        header: vec![
            0x4E, 0x45, 0x53, 0x1A, 0x03, 0x02, 0x00, 00, 00, 00, 00, 00, 00, 00, 00, 00,
        ],
        trainer: None,
        pgp_rom: vec![7; 3 * 16384],
        chr_rom: vec![9; 2 * 8192],
    });
    let rom = Cartridge::new(&image).unwrap();
    assert_eq!(rom.prg_rom.len(), 3 * 16384);
    assert_eq!(rom.chr_rom.len(), 2 * 8192);
}

#[test]
fn test_trainer_contents_are_skipped() {
    // The same payload with and without a trainer block loads to the same
    // PRG and CHR bytes; the trainer shifts the offsets by 512 only.
    let mut prg = vec![0u8; 16384];
    for (i, b) in prg.iter_mut().enumerate() {
        *b = (i % 251) as u8;
    }
    let chr: Vec<u8> = (0..8192).map(|i| (i % 241) as u8).collect();
    let plain = create_rom(TestRom {
        header: vec![
            0x4E, 0x45, 0x53, 0x1A, 0x01, 0x01, 0x00, 00, 00, 00, 00, 00, 00, 00, 00, 00,
        ],
        trainer: None,
        pgp_rom: prg.clone(),
        chr_rom: chr.clone(),
    });
    let trained = create_rom(TestRom {
        header: vec![
            0x4E, 0x45, 0x53, 0x1A, 0x01, 0x01, 0x04, 00, 00, 00, 00, 00, 00, 00, 00, 00,
        ],
        trainer: Some(vec![0xEE; 512]),
        pgp_rom: prg.clone(),
        chr_rom: chr.clone(),
    });
    let rom_plain = Cartridge::new(&plain).unwrap();
    let rom_trained = Cartridge::new(&trained).unwrap();
    assert_eq!(rom_plain.prg_rom, rom_trained.prg_rom);
    assert_eq!(rom_plain.chr_rom, rom_trained.chr_rom);
    assert_eq!(rom_trained.prg_rom, prg);
    assert_eq!(rom_trained.chr_rom, chr);
}

#[test]
fn test_bad_magic_is_rejected() {
    let mut image = header_with_byte6(0x00);
    image[0] = 0x4F;
    assert_eq!(
        Cartridge::new(&image).unwrap_err(),
        "File is not in iNES file format"
    );
    let short: Vec<u8> = vec![0x4E, 0x45, 0x53, 0x1A, 0x01];
    assert_eq!(
        Cartridge::new(&short).unwrap_err(),
        "File is not in iNES file format"
    );
}

#[test]
fn test_undersized_image_is_rejected() {
    // Header declares one PRG and one CHR bank but the payload is short.
    let mut image = header_with_byte6(0x00);
    image.truncate(16 + 16384 + 8191);
    assert_eq!(
        Cartridge::new(&image).unwrap_err(),
        "File is shorter than its iNES header declares"
    );
}
