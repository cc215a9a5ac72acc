use vstd::prelude::*;

verus! {

/// Errors raised by bus and device operations.
#[derive(Debug, Clone, Copy, PartialEq, Eq, Structural)]
pub enum MemoryError {
    /// The address is outside every valid range.
    AddressOutOfBounds,
    /// The address is mapped read-only.
    ReadOnlyMemory,
    /// The requested range intersects an already attached device.
    DeviceAlreadyAttached,
    /// No device is attached at the requested address.
    DeviceNotFound,
    /// The requested range ends before it starts.
    InvalidAddressRange,
    /// A device refused the access.
    DeviceAccessViolation,
    /// Any other bus failure.
    BusError,
}

/// A byte-addressed memory device on the bus.
///
/// A device is modelled by four spec functions: which addresses it decodes
/// (`valid_addr`), which of those accept writes (`can_write`), the byte each
/// address holds (`value_at`), and the byte each address holds after a reset
/// (`reset_value`). Every operation is specified against this model, so a
/// bus built from devices inherits exact contracts.
pub trait MemoryDevice: Sized {
    /// Whether the device decodes the address at all.
    spec fn valid_addr(&self, addr: u16) -> bool;

    /// Whether a write to the address can succeed.
    spec fn can_write(&self, addr: u16) -> bool;

    /// The byte currently stored at the address.
    spec fn value_at(&self, addr: u16) -> u8;

    /// The byte the address holds after a reset.
    spec fn reset_value(&self, addr: u16) -> u8;

    /// The size the device reports, as a mathematical (non-negative) integer.
    spec fn spec_size(&self) -> nat;

    fn read(&self, address: u16) -> (r: Result<u8, MemoryError>)
        ensures
            self.valid_addr(address) ==> r == Ok::<u8, MemoryError>(self.value_at(address)),
            !self.valid_addr(address) ==> r == Err::<u8, MemoryError>(
                MemoryError::AddressOutOfBounds,
            ),
    ;

    fn write(&mut self, address: u16, value: u8) -> (r: Result<(), MemoryError>)
        ensures
            forall|a: u16| old(self).valid_addr(a) == final(self).valid_addr(a),
            forall|a: u16| old(self).can_write(a) == final(self).can_write(a),
            forall|a: u16|
                old(self).valid_addr(a) ==> old(self).reset_value(a) == final(self).reset_value(a),
            old(self).spec_size() == final(self).spec_size(),
            old(self).valid_addr(address) && old(self).can_write(address) ==> r == Ok::<
                (),
                MemoryError,
            >(()) && final(self).value_at(address) == value && (forall|a: u16|
                a != address && old(self).valid_addr(a) ==> old(self).value_at(a)
                    == final(self).value_at(a)),
            !(old(self).valid_addr(address) && old(self).can_write(address)) ==> r is Err && (
            forall|a: u16|
                old(self).valid_addr(a) ==> old(self).value_at(a) == final(self).value_at(a)),
    ;

    fn reset(&mut self)
        ensures
            forall|a: u16| old(self).valid_addr(a) == final(self).valid_addr(a),
            forall|a: u16| old(self).can_write(a) == final(self).can_write(a),
            forall|a: u16|
                old(self).valid_addr(a) ==> old(self).reset_value(a) == final(self).reset_value(a),
            old(self).spec_size() == final(self).spec_size(),
            forall|a: u16|
                old(self).valid_addr(a) ==> final(self).value_at(a) == old(self).reset_value(a),
    ;

    fn size(&self) -> (r: usize)
        ensures
            self.spec_size() <= usize::MAX ==> r == self.spec_size(),
    ;
}

/// A memory device bound to an inclusive address range, with a protection
/// flag that rejects every write to the range when set.
#[derive(Debug)]
pub struct MappedDevice<D: MemoryDevice> {
    start_addr: u16,
    end_addr: u16,
    write_only: bool,
    device: D,
}

impl<D: MemoryDevice> MappedDevice<D> {
    /// The first address of the mapping.
    pub closed spec fn spec_start(&self) -> u16 {
        self.start_addr
    }

    /// The last address of the mapping (inclusive).
    pub closed spec fn spec_end(&self) -> u16 {
        self.end_addr
    }

    /// Whether the protection flag is set; a set flag rejects all writes.
    pub closed spec fn spec_write_only(&self) -> bool {
        self.write_only
    }

    /// The wrapped device.
    pub closed spec fn spec_device(&self) -> D {
        self.device
    }

    /// Whether the mapping's range contains the address.
    pub open spec fn in_range(&self, addr: u16) -> bool {
        self.spec_start() <= addr <= self.spec_end()
    }

    pub fn new(start_addr: u16, end_addr: u16, write_only: bool, device: D) -> (r: MappedDevice<
        D,
    >)
        ensures
            r.spec_start() == start_addr,
            r.spec_end() == end_addr,
            r.spec_write_only() == write_only,
            r.spec_device() == device,
    {
        MappedDevice { start_addr, end_addr, write_only, device }
    }

    pub fn start_addr(&self) -> (r: u16)
        ensures
            r == self.spec_start(),
    {
        self.start_addr
    }

    pub fn end_addr(&self) -> (r: u16)
        ensures
            r == self.spec_end(),
    {
        self.end_addr
    }

    pub fn write_only(&self) -> (r: bool)
        ensures
            r == self.spec_write_only(),
    {
        self.write_only
    }

    /// Consumes the mapping and hands the wrapped device back to the caller.
    pub fn into_device(self) -> (r: D)
        ensures
            r == self.spec_device(),
    {
        self.device
    }
}

impl<D: MemoryDevice> MemoryDevice for MappedDevice<D> {
    open spec fn valid_addr(&self, addr: u16) -> bool {
        self.in_range(addr) && self.spec_device().valid_addr(addr)
    }

    open spec fn can_write(&self, addr: u16) -> bool {
        self.in_range(addr) && !self.spec_write_only() && self.spec_device().can_write(addr)
    }

    open spec fn value_at(&self, addr: u16) -> u8 {
        self.spec_device().value_at(addr)
    }

    open spec fn reset_value(&self, addr: u16) -> u8 {
        self.spec_device().reset_value(addr)
    }

    open spec fn spec_size(&self) -> nat {
        self.spec_device().spec_size()
    }

    fn read(&self, address: u16) -> (r: Result<u8, MemoryError>)
        ensures
            !self.in_range(address) ==> r == Err::<u8, MemoryError>(
                MemoryError::AddressOutOfBounds,
            ),
    {
        if address < self.start_addr || address > self.end_addr {
            return Err(MemoryError::AddressOutOfBounds);
        }
        self.device.read(address)
    }

    fn write(&mut self, address: u16, value: u8) -> (r: Result<(), MemoryError>)
        ensures
            final(self).spec_start() == old(self).spec_start(),
            final(self).spec_end() == old(self).spec_end(),
            final(self).spec_write_only() == old(self).spec_write_only(),
            !old(self).in_range(address) ==> r == Err::<(), MemoryError>(
                MemoryError::AddressOutOfBounds,
            ),
            old(self).in_range(address) && old(self).spec_write_only() ==> r == Err::<
                (),
                MemoryError,
            >(MemoryError::ReadOnlyMemory),
    {
        if address < self.start_addr || address > self.end_addr {
            return Err(MemoryError::AddressOutOfBounds);
        }
        if self.write_only {
            return Err(MemoryError::ReadOnlyMemory);
        }
        self.device.write(address, value)
    }

    fn reset(&mut self)
        ensures
            final(self).spec_start() == old(self).spec_start(),
            final(self).spec_end() == old(self).spec_end(),
            final(self).spec_write_only() == old(self).spec_write_only(),
    {
        self.device.reset();
    }

    fn size(&self) -> (r: usize) {
        self.device.size()
    }
}

} // verus!
