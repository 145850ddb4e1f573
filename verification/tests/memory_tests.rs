use nes_core::memory::Memory;

#[test]
fn test_memory_starts_zeroed() {
    let memory = Memory::new();
    assert_eq!(memory.read(0x0000), 0);
    assert_eq!(memory.read(0x8000), 0);
    assert_eq!(memory.read(0xFFFE), 0);
}

#[test]
fn test_memory_read_write_round_trip() {
    let mut memory = Memory::new();
    memory.write(0x1234, 0xAB);
    assert_eq!(memory.read(0x1234), 0xAB);
    memory.write(0x1234, 0x01);
    assert_eq!(memory.read(0x1234), 0x01);
}

#[test]
fn test_memory_u16_is_little_endian() {
    let mut memory = Memory::new();
    memory.write_u16(0x0600, 0xBEEF);
    assert_eq!(memory.read(0x0600), 0xEF);
    assert_eq!(memory.read(0x0601), 0xBE);
    assert_eq!(memory.read_u16(0x0600), 0xBEEF);
}
