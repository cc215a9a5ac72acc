use tiny_computers::bus::bus_trait::MemoryBus;
use tiny_computers::bus::device::{MappedDevice, MemoryDevice, MemoryError};
use tiny_computers::bus::mapper::MemoryMapper;
use tiny_computers::memory::ram::RAM;
use tiny_computers::memory::traits::Memory;

fn ram_bus() -> MemoryMapper<RAM> {
    let mut bus: MemoryMapper<RAM> = MemoryMapper::new();
    // a device answers the absolute address, so it spans up to its range end
    bus.attach_device(0x2000, 0x3FFF, false, RAM::new(0x4000)).unwrap();
    bus.attach_device(0x0000, 0x00FF, true, RAM::new(0x100)).unwrap();
    bus
}

#[test]
fn attach_succeeds_iff_disjoint() {
    let mut bus = ram_bus();
    // sharing even one address with an attached range is rejected
    assert_eq!(
        bus.attach_device(0x3FFF, 0x4FFF, false, RAM::new(0x5000)).unwrap_err(),
        MemoryError::DeviceAlreadyAttached
    );
    // a range that swallows an attached range whole is rejected too
    assert_eq!(
        bus.attach_device(0x1000, 0x4FFF, false, RAM::new(0x5000)).unwrap_err(),
        MemoryError::DeviceAlreadyAttached
    );
    // a disjoint range is accepted
    bus.attach_device(0x4000, 0x40FF, false, RAM::new(0x4100)).unwrap();
    assert_eq!(bus.device_count(), 3);
}

#[test]
fn attach_rejects_backwards_range() {
    let mut bus: MemoryMapper<RAM> = MemoryMapper::new();
    assert_eq!(
        bus.attach_device(5, 3, false, RAM::new(16)).unwrap_err(),
        MemoryError::InvalidAddressRange
    );
    assert!(bus.is_empty());
}

#[test]
fn write_then_read_round_trips() {
    let mut bus = ram_bus();
    bus.write(0x2500, 7).unwrap();
    assert_eq!(bus.read(0x2500).unwrap(), 7);
}

#[test]
fn protected_mapping_rejects_writes_and_keeps_contents() {
    let mut bus = ram_bus();
    assert_eq!(bus.read(0x0005).unwrap(), 0);
    assert_eq!(bus.write(0x0005, 9).unwrap_err(), MemoryError::ReadOnlyMemory);
    assert_eq!(bus.read(0x0005).unwrap(), 0);
}

#[test]
fn unmapped_addresses_are_out_of_bounds() {
    let mut bus = ram_bus();
    assert_eq!(bus.read(0x5000).unwrap_err(), MemoryError::AddressOutOfBounds);
    assert_eq!(bus.write(0x5000, 1).unwrap_err(), MemoryError::AddressOutOfBounds);
}

#[test]
fn detach_returns_the_owned_device() {
    let mut bus = ram_bus();
    bus.write(0x2500, 42).unwrap();
    let ram = bus.remove_device(0x2000).unwrap();
    // the device answered absolute addresses, so the byte sits at 0x2500
    assert_eq!(ram.read_u8(0x2500).unwrap(), 42);
    assert_eq!(bus.device_count(), 1);
    assert!(bus.remove_device(0x2000).is_none());
    // the detached range no longer answers
    assert_eq!(bus.read(0x2500).unwrap_err(), MemoryError::AddressOutOfBounds);
}

#[test]
fn reset_keeps_devices_attached_and_zeroes_ram() {
    let mut bus = ram_bus();
    bus.write(0x2500, 7).unwrap();
    bus.reset();
    assert_eq!(bus.device_count(), 2);
    assert_eq!(bus.read(0x2500).unwrap(), 0);
}

#[test]
fn size_sums_device_sizes() {
    let bus = ram_bus();
    assert_eq!(bus.size(), 0x4000 + 0x100);
}

#[test]
fn clear_drops_every_device() {
    let mut bus = ram_bus();
    bus.clear();
    assert!(bus.is_empty());
    assert_eq!(bus.device_count(), 0);
}

#[test]
fn mapped_device_checks_its_range() {
    let mut d = MappedDevice::new(0x10, 0x1F, false, RAM::new(0x20));
    assert_eq!(d.start_addr(), 0x10);
    assert_eq!(d.end_addr(), 0x1F);
    assert!(!d.write_only());
    assert_eq!(d.read(0x05).unwrap_err(), MemoryError::AddressOutOfBounds);
    d.write(0x15, 3).unwrap();
    assert_eq!(d.read(0x15).unwrap(), 3);
    assert_eq!(d.size(), 0x20);
    let inner = d.into_device();
    assert_eq!(inner.read_u8(0x15).unwrap(), 3);
}

#[test]
fn protected_mapped_device_rejects_writes() {
    let mut d = MappedDevice::new(0x10, 0x1F, true, RAM::new(0x20));
    assert_eq!(d.write(0x15, 3).unwrap_err(), MemoryError::ReadOnlyMemory);
    assert_eq!(d.read(0x15).unwrap(), 0);
}

#[test]
fn device_shorter_than_its_range_rejects_the_tail() {
    // the device answers absolute addresses, so a short one covers only the
    // front of its mapped range
    let mut bus: MemoryMapper<RAM> = MemoryMapper::new();
    bus.attach_device(0x00, 0xFF, false, RAM::new(0x10)).unwrap();
    bus.write(0x05, 9).unwrap();
    assert_eq!(bus.read(0x05).unwrap(), 9);
    assert_eq!(bus.read(0x20).unwrap_err(), MemoryError::AddressOutOfBounds);
    assert_eq!(bus.write(0x20, 1).unwrap_err(), MemoryError::AddressOutOfBounds);
}
