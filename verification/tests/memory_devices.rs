use tiny_computers::machine::ram::RAM as HwRAM;
use tiny_computers::machine::rom::ROM as HwROM;
use tiny_computers::memory::error::MemoryError;
use tiny_computers::memory::ram::RAM;
use tiny_computers::memory::rom::ROM;
use tiny_computers::memory::traits::Memory;

#[test]
fn test_ram() {
    let mut ram = RAM::new(16);

    assert_eq!(ram.read_u8(0).unwrap(), 0);
    ram.write_u8(0, 1).unwrap();

    assert_eq!(ram.read_u8(0).unwrap(), 1);
}

#[test]
fn test_ram_size() {
    assert_eq!(RAM::new(16).get_size(), 16);
}

#[test]
fn test_ram_out_of_bounds() {
    let ram = RAM::new(16);

    assert_eq!(ram.read_u8(16).unwrap_err(), MemoryError::OutOfBounds);
}

#[test]
fn ram_test_ram() {
    let mut ram = HwRAM::<16>::new();

    assert_eq!(ram.read_u8(0).unwrap(), 0);
    ram.write_u8(0, 1).unwrap();

    assert_eq!(ram.read_u8(0).unwrap(), 1);
}

#[test]
fn ram_test_ram_size() {
    assert_eq!(HwRAM::<16>::new().get_size(), 16);
}

#[test]
fn ram_test_ram_out_of_bounds() {
    let ram = HwRAM::<16>::new();

    assert_eq!(ram.read_u8(16).unwrap_err(), MemoryError::OutOfBounds);
}

#[test]
fn ram_new_with_data_keeps_bytes() {
    let ram = RAM::new_with_data(vec![9, 8, 7]);
    assert_eq!(ram.get_size(), 3);
    assert_eq!(ram.read_u8(0).unwrap(), 9);
    assert_eq!(ram.read_u8(2).unwrap(), 7);
    assert_eq!(ram.read_u8(3).unwrap_err(), MemoryError::OutOfBounds);
}

#[test]
fn ram_write_out_of_bounds_changes_nothing() {
    let mut ram = RAM::new(4);
    assert_eq!(ram.write_u8(4, 1).unwrap_err(), MemoryError::OutOfBounds);
    for a in 0..4u16 {
        assert_eq!(ram.read_u8(a).unwrap(), 0);
    }
}

#[test]
fn rom_rejects_writes_and_keeps_contents() {
    let mut rom: ROM<4> = ROM::new(vec![1, 2, 3, 4]);
    assert_eq!(rom.get_size(), 4);
    assert_eq!(rom.read_u8(2).unwrap(), 3);
    assert_eq!(rom.write_u8(2, 9).unwrap_err(), MemoryError::ReadOnly);
    assert_eq!(rom.write_u8(4, 9).unwrap_err(), MemoryError::OutOfBounds);
    assert_eq!(rom.read_u8(2).unwrap(), 3);
    assert_eq!(rom.read_u8(4).unwrap_err(), MemoryError::OutOfBounds);
}

#[test]
fn hw_rom_reads_its_image() {
    let rom: HwROM<3> = HwROM::new(vec![0xAA, 0xBB, 0xCC]);
    assert_eq!(rom.get_size(), 3);
    assert_eq!(rom.read_u8(1).unwrap(), 0xBB);
    assert_eq!(rom.read_u8(3).unwrap_err(), MemoryError::OutOfBounds);
}

#[test]
fn memory_error_codes_round_trip() {
    assert_eq!(u8::from(MemoryError::OutOfBounds), 0);
    assert_eq!(u8::from(MemoryError::ReadOnly), 1);
    assert_eq!(u8::from(MemoryError::Unexpected), 2);
    assert_eq!(MemoryError::from(0u8), MemoryError::OutOfBounds);
    assert_eq!(MemoryError::from(1u8), MemoryError::ReadOnly);
    assert_eq!(MemoryError::from(7u8), MemoryError::Unexpected);
}
