use tiny_computers::machine::io::{IODevice, IODeviceError, IOResult};
use tiny_computers::machine::mapper::{MemoryMapper, MemoryMapperError};
use tiny_computers::machine::rom::ROM;
use tiny_computers::memory::error::MemoryError;

/// A one-byte latch living in an IO slot.
#[derive(Clone, Copy)]
struct Latch {
    value: u8,
}

impl IODevice for Latch {
    fn validate_address(&self, _address: u16) -> IOResult<()> {
        Ok(())
    }

    fn read_u8(&self, _address: u16) -> IOResult<u8> {
        Ok(self.value)
    }

    fn write_u8(&mut self, _address: u16, value: u8) -> IOResult<()> {
        if value == 0xFF {
            return Err(IODeviceError::Unexpected);
        }
        self.value = value;
        Ok(())
    }
}

type RegionMap = MemoryMapper<Latch, 0x2000, 0x2000, 4>;

fn enabled_map() -> RegionMap {
    let mut m: RegionMap = MemoryMapper::new();
    m.set_rom_enabled(true);
    m.set_ram_enabled(true);
    m
}

#[test]
fn rom_rejects_writes_ram_round_trips() {
    let mut m = enabled_map();
    assert_eq!(
        m.write_u8(0x1000, 5).unwrap_err(),
        MemoryMapperError::MemoryError(MemoryError::ReadOnly)
    );
    m.write_u8(0x2500, 5).unwrap();
    assert_eq!(m.read_u8(0x2500).unwrap(), 5);
}

#[test]
fn gates_answer_before_any_device() {
    let mut m: RegionMap = MemoryMapper::new();
    assert_eq!(m.read_u8(0x1000).unwrap_err(), MemoryMapperError::RomNotLoaded);
    assert_eq!(m.read_u8(0x2500).unwrap_err(), MemoryMapperError::RamNotLoaded);
    assert_eq!(m.read_u8(0x4001).unwrap_err(), MemoryMapperError::IoNotLoaded);
    assert_eq!(m.write_u8(0x1000, 1).unwrap_err(), MemoryMapperError::RomNotLoaded);
    assert_eq!(m.write_u8(0x2500, 1).unwrap_err(), MemoryMapperError::RamNotLoaded);
    m.set_ram_enabled(true);
    m.write_u8(0x2500, 9).unwrap();
    m.set_ram_enabled(false);
    assert_eq!(m.read_u8(0x2500).unwrap_err(), MemoryMapperError::RamNotLoaded);
}

#[test]
fn addresses_past_every_region_are_out_of_bounds() {
    let m = enabled_map();
    assert_eq!(
        m.read_u8(0x4004).unwrap_err(),
        MemoryMapperError::MemoryError(MemoryError::OutOfBounds)
    );
}

#[test]
fn rom_serves_its_loaded_image() {
    let mut m = enabled_map();
    let mut image = vec![0u8; 0x2000];
    image[0x123] = 0xAB;
    m.load_rom(ROM::new(image));
    assert_eq!(m.read_u8(0x0123).unwrap(), 0xAB);
}

#[test]
fn empty_and_populated_io_slots() {
    let mut m = enabled_map();
    m.set_io_enabled(true);
    // slot 1 sits at address 0x4001 and is empty
    assert_eq!(m.read_u8(0x4001).unwrap_err(), MemoryMapperError::IoNotLoaded);
    m.attach_io_device(1, Latch { value: 0x5A }).unwrap();
    assert_eq!(m.read_u8(0x4001).unwrap(), 0x5A);
    m.write_u8(0x4001, 0x77).unwrap();
    assert_eq!(m.read_u8(0x4001).unwrap(), 0x77);
    // the device's own failure surfaces as an IO error
    assert_eq!(
        m.write_u8(0x4001, 0xFF).unwrap_err(),
        MemoryMapperError::IOError(IODeviceError::Unexpected)
    );
    // a slot the mapper does not have is rejected
    assert_eq!(
        m.attach_io_device(4, Latch { value: 0 }).unwrap_err(),
        MemoryMapperError::MemoryError(MemoryError::OutOfBounds)
    );
}

#[test]
fn sixteen_bit_accesses_are_big_endian() {
    let mut m = enabled_map();
    m.write_u16(0x2500, 0x0102).unwrap();
    assert_eq!(m.read_u8(0x2500).unwrap(), 1);
    assert_eq!(m.read_u8(0x2501).unwrap(), 2);
    assert_eq!(m.read_u16(0x2500).unwrap(), 0x0102);
}

#[test]
fn sixteen_bit_writes_fail_atomically() {
    let mut m = enabled_map();
    // the high byte would land in ROM: nothing is written
    assert_eq!(
        m.write_u16(0x1FFF, 0x0102).unwrap_err(),
        MemoryMapperError::MemoryError(MemoryError::ReadOnly)
    );
    assert_eq!(m.read_u8(0x2000).unwrap(), 0);
    // the low byte would land in a disabled IO region: nothing is written
    assert_eq!(m.write_u16(0x3FFF, 0x0102).unwrap_err(), MemoryMapperError::IoNotLoaded);
    assert_eq!(m.read_u8(0x3FFF).unwrap(), 0);
    // the low byte would land in an empty IO slot: nothing is written
    m.set_io_enabled(true);
    assert_eq!(m.write_u16(0x3FFF, 0x0102).unwrap_err(), MemoryMapperError::IoNotLoaded);
    assert_eq!(m.read_u8(0x3FFF).unwrap(), 0);
}

#[test]
fn io_error_codes_round_trip() {
    assert_eq!(u8::from(IODeviceError::OutOfBounds), 0);
    assert_eq!(u8::from(IODeviceError::ReadOnly), 1);
    assert_eq!(u8::from(IODeviceError::Unexpected), 2);
    assert_eq!(u8::from(IODeviceError::DeviceError(9)), 9);
    assert_eq!(IODeviceError::from(0u8), IODeviceError::OutOfBounds);
    assert_eq!(IODeviceError::from(1u8), IODeviceError::ReadOnly);
    assert_eq!(IODeviceError::from(2u8), IODeviceError::Unexpected);
    assert_eq!(IODeviceError::from(9u8), IODeviceError::DeviceError(9));
}

#[test]
fn sixteen_bit_read_crosses_the_region_seam() {
    let mut m = enabled_map();
    let mut image = vec![0u8; 0x2000];
    image[0x1FFF] = 0x0A;
    m.load_rom(ROM::new(image));
    m.write_u8(0x2000, 0x0B).unwrap();
    // the high byte comes from the last ROM cell, the low from the first
    // RAM cell
    assert_eq!(m.read_u16(0x1FFF).unwrap(), 0x0A0B);
}
