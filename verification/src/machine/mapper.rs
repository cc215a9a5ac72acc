use crate::machine::io::{IODevice, IODeviceError};
use crate::machine::ram::RAM;
use crate::machine::registers::{word_from, word_high, word_low};
use crate::machine::rom::ROM;
use crate::memory::error::MemoryError;
use vstd::prelude::*;

verus! {

/// Errors raised by the region-gated memory mapper: one "not loaded" error
/// per disabled (or unpopulated) region, and the wrapped device errors.
#[derive(Debug, Clone, Copy, PartialEq, Eq, Structural)]
pub enum MemoryMapperError {
    /// The address falls in the ROM region while the ROM gate is off.
    RomNotLoaded,
    /// The address falls in the RAM region while the RAM gate is off.
    RamNotLoaded,
    /// The address falls in the IO region while the IO gate is off, or its
    /// slot holds no device.
    IoNotLoaded,
    /// A memory device failed.
    MemoryError(MemoryError),
    /// An IO device failed.
    IOError(IODeviceError),
}

pub type MemoryMapperResult<T> = Result<T, MemoryMapperError>;

/// Passes a device result through, mapping any error into the mapper's
/// error type with the given function.
pub fn propagate_result<T, E, F: Fn(E) -> MemoryMapperError>(
    result: Result<T, E>,
    map_error: F,
) -> (r: MemoryMapperResult<T>)
    requires
        forall|e: E| #[trigger] call_requires(map_error, (e,)),
    ensures
        (match result {
            Ok(v) => r == Ok::<T, MemoryMapperError>(v),
            Err(e) => exists|me: MemoryMapperError|
                r == Err::<T, MemoryMapperError>(me) && #[trigger] call_ensures(
                    map_error,
                    (e,),
                    me,
                ),
        }),
{
    match result {
        Ok(value) => Ok(value),
        Err(error) => Err(map_error(error)),
    }
}

/// A fixed three-region address space: `ROM_SIZE` bytes of ROM from address
/// 0, then `RAM_SIZE` bytes of RAM, then `IO_SIZE` one-byte IO slots. Each
/// region has its own enable gate, checked before any device is reached;
/// ROM rejects every write. An IO slot passes the access to the device in
/// it, whose behaviour the mapper does not model.
pub struct MemoryMapper<
    I: IODevice,
    const ROM_SIZE: usize,
    const RAM_SIZE: usize,
    const IO_SIZE: usize,
> {
    rom: ROM<ROM_SIZE>,
    ram: RAM<RAM_SIZE>,
    io: Vec<Option<I>>,
    ram_enabled: bool,
    rom_enabled: bool,
    io_enabled: bool,
}

impl<
    I: IODevice,
    const ROM_SIZE: usize,
    const RAM_SIZE: usize,
    const IO_SIZE: usize,
> MemoryMapper<I, ROM_SIZE, RAM_SIZE, IO_SIZE> {
    /// The ROM region's contents.
    pub closed spec fn rom_view(&self) -> Seq<u8> {
        self.rom@
    }

    /// The RAM region's contents.
    pub closed spec fn ram_view(&self) -> Seq<u8> {
        self.ram@
    }

    /// The IO slots, populated or empty.
    pub closed spec fn io_slots(&self) -> Seq<Option<I>> {
        self.io@
    }

    /// Whether the ROM gate is on.
    pub closed spec fn spec_rom_enabled(&self) -> bool {
        self.rom_enabled
    }

    /// Whether the RAM gate is on.
    pub closed spec fn spec_ram_enabled(&self) -> bool {
        self.ram_enabled
    }

    /// Whether the IO gate is on.
    pub closed spec fn spec_io_enabled(&self) -> bool {
        self.io_enabled
    }

    /// The regions hold exactly their sizes and together fit the 16-bit
    /// address space.
    pub open spec fn wf(&self) -> bool {
        &&& ROM_SIZE + RAM_SIZE + IO_SIZE <= 0xFFFF
        &&& self.rom_view().len() == ROM_SIZE
        &&& self.ram_view().len() == RAM_SIZE
        &&& self.io_slots().len() == IO_SIZE
    }

    /// The address falls in the ROM region.
    pub open spec fn in_rom_region(addr: u16) -> bool {
        (addr as int) < ROM_SIZE
    }

    /// The address falls in the RAM region.
    pub open spec fn in_ram_region(addr: u16) -> bool {
        ROM_SIZE <= (addr as int) < ROM_SIZE + RAM_SIZE
    }

    /// The address falls in the IO region.
    pub open spec fn in_io_region(addr: u16) -> bool {
        ROM_SIZE + RAM_SIZE <= (addr as int) < ROM_SIZE + RAM_SIZE + IO_SIZE
    }

    /// Which region the address falls in and whether that region's gate is
    /// on: the region's "not loaded" error for a closed gate, `OutOfBounds`
    /// past every region, `Ok` otherwise.
    pub open spec fn validate_spec(&self, addr: u16) -> Result<(), MemoryMapperError> {
        if Self::in_rom_region(addr) {
            if !self.spec_rom_enabled() {
                Err(MemoryMapperError::RomNotLoaded)
            } else {
                Ok(())
            }
        } else if Self::in_ram_region(addr) {
            if !self.spec_ram_enabled() {
                Err(MemoryMapperError::RamNotLoaded)
            } else {
                Ok(())
            }
        } else if Self::in_io_region(addr) {
            if !self.spec_io_enabled() {
                Err(MemoryMapperError::IoNotLoaded)
            } else {
                Ok(())
            }
        } else {
            Err(MemoryMapperError::MemoryError(MemoryError::OutOfBounds))
        }
    }

    /// The access reaches a populated IO device, whose behaviour the mapper
    /// does not model.
    pub open spec fn io_call(&self, addr: u16) -> bool {
        Self::in_io_region(addr) && self.spec_io_enabled() && self.io_slots()[(addr as int)
            - ROM_SIZE - RAM_SIZE] is Some
    }

    /// What a read returns wherever no IO device decides: the gated region's
    /// byte, or the exact error.
    pub open spec fn read_spec(&self, addr: u16) -> Result<u8, MemoryMapperError> {
        match self.validate_spec(addr) {
            Err(e) => Err(e),
            Ok(u) => if Self::in_rom_region(addr) {
                Ok(self.rom_view()[addr as int])
            } else if Self::in_ram_region(addr) {
                Ok(self.ram_view()[(addr as int) - ROM_SIZE])
            } else {
                Err(MemoryMapperError::IoNotLoaded)
            },
        }
    }

    /// What a write returns wherever no IO device decides: `ReadOnly` in the
    /// ROM region, success in the RAM region, or the exact error.
    pub open spec fn write_result_spec(&self, addr: u16) -> Result<(), MemoryMapperError> {
        match self.validate_spec(addr) {
            Err(e) => Err(e),
            Ok(u) => if Self::in_rom_region(addr) {
                Err(MemoryMapperError::MemoryError(MemoryError::ReadOnly))
            } else if Self::in_ram_region(addr) {
                Ok(())
            } else {
                Err(MemoryMapperError::IoNotLoaded)
            },
        }
    }

    /// The gates, the ROM contents and which IO slots are populated agree in
    /// the two mappers.
    pub open spec fn same_config(pre: Self, post: Self) -> bool {
        &&& post.spec_rom_enabled() == pre.spec_rom_enabled()
        &&& post.spec_ram_enabled() == pre.spec_ram_enabled()
        &&& post.spec_io_enabled() == pre.spec_io_enabled()
        &&& post.rom_view() == pre.rom_view()
        &&& post.ram_view().len() == pre.ram_view().len()
        &&& post.io_slots().len() == pre.io_slots().len()
        &&& forall|k: int|
            0 <= k < pre.io_slots().len() ==> ((#[trigger] post.io_slots()[k]) is Some) == (
            pre.io_slots()[k] is Some)
    }

    /// A mapper with zeroed ROM and RAM, empty IO slots, and all three
    /// gates off.
    pub fn new() -> (r: MemoryMapper<I, ROM_SIZE, RAM_SIZE, IO_SIZE>)
        requires
            ROM_SIZE + RAM_SIZE + IO_SIZE <= 0xFFFF,
        ensures
            r.wf(),
            r.rom_view() == Seq::new(ROM_SIZE as nat, |i: int| 0u8),
            r.ram_view() == Seq::new(RAM_SIZE as nat, |i: int| 0u8),
            forall|k: int| 0 <= k < IO_SIZE ==> (#[trigger] r.io_slots()[k]) is None,
            !r.spec_rom_enabled(),
            !r.spec_ram_enabled(),
            !r.spec_io_enabled(),
    {
        let mut rom_data: Vec<u8> = Vec::new();
        let mut i: usize = 0;
        while i < ROM_SIZE
            invariant
                i <= ROM_SIZE,
                rom_data@ == Seq::new(i as nat, |j: int| 0u8),
            decreases ROM_SIZE - i,
        {
            rom_data.push(0);
            i = i + 1;
            proof {
                assert(rom_data@ =~= Seq::new(i as nat, |j: int| 0u8));
            }
        }
        let mut io: Vec<Option<I>> = Vec::new();
        let mut k: usize = 0;
        while k < IO_SIZE
            invariant
                k <= IO_SIZE,
                io@.len() == k,
                forall|j: int| 0 <= j < k ==> (#[trigger] io@[j]) is None,
            decreases IO_SIZE - k,
        {
            io.push(None);
            k = k + 1;
        }
        MemoryMapper {
            rom: ROM::new(rom_data),
            ram: RAM::new(),
            io,
            ram_enabled: false,
            rom_enabled: false,
            io_enabled: false,
        }
    }

    /// Loads a ROM image; the mapper serves ROM reads from it.
    pub fn load_rom(&mut self, rom: ROM<ROM_SIZE>)
        requires
            old(self).wf(),
            rom.wf(),
        ensures
            final(self).wf(),
            final(self).rom_view() == rom@,
            final(self).ram_view() == old(self).ram_view(),
            final(self).io_slots() == old(self).io_slots(),
            final(self).spec_rom_enabled() == old(self).spec_rom_enabled(),
            final(self).spec_ram_enabled() == old(self).spec_ram_enabled(),
            final(self).spec_io_enabled() == old(self).spec_io_enabled(),
    {
        self.rom = rom;
    }

    /// Puts a device in an IO slot; `OutOfBounds` for a slot the mapper does
    /// not have.
    pub fn attach_io_device(&mut self, slot: usize, device: I) -> (r: MemoryMapperResult<()>)
        requires
            old(self).wf(),
        ensures
            final(self).wf(),
            slot < IO_SIZE ==> r == Ok::<(), MemoryMapperError>(()) && final(self).io_slots()
                == old(self).io_slots().update(slot as int, Some(device)),
            slot >= IO_SIZE ==> r == Err::<(), MemoryMapperError>(
                MemoryMapperError::MemoryError(MemoryError::OutOfBounds),
            ) && *final(self) == *old(self),
            final(self).rom_view() == old(self).rom_view(),
            final(self).ram_view() == old(self).ram_view(),
            final(self).spec_rom_enabled() == old(self).spec_rom_enabled(),
            final(self).spec_ram_enabled() == old(self).spec_ram_enabled(),
            final(self).spec_io_enabled() == old(self).spec_io_enabled(),
    {
        if slot < self.io.len() {
            self.io.set(slot, Some(device));
            Ok(())
        } else {
            Err(MemoryMapperError::MemoryError(MemoryError::OutOfBounds))
        }
    }

    /// Opens or closes the ROM gate.
    pub fn set_rom_enabled(&mut self, enabled: bool)
        ensures
            final(self).spec_rom_enabled() == enabled,
            final(self).spec_ram_enabled() == old(self).spec_ram_enabled(),
            final(self).spec_io_enabled() == old(self).spec_io_enabled(),
            final(self).rom_view() == old(self).rom_view(),
            final(self).ram_view() == old(self).ram_view(),
            final(self).io_slots() == old(self).io_slots(),
    {
        self.rom_enabled = enabled;
    }

    /// Opens or closes the RAM gate.
    pub fn set_ram_enabled(&mut self, enabled: bool)
        ensures
            final(self).spec_rom_enabled() == old(self).spec_rom_enabled(),
            final(self).spec_ram_enabled() == enabled,
            final(self).spec_io_enabled() == old(self).spec_io_enabled(),
            final(self).rom_view() == old(self).rom_view(),
            final(self).ram_view() == old(self).ram_view(),
            final(self).io_slots() == old(self).io_slots(),
    {
        self.ram_enabled = enabled;
    }

    /// Opens or closes the IO gate.
    pub fn set_io_enabled(&mut self, enabled: bool)
        ensures
            final(self).spec_rom_enabled() == old(self).spec_rom_enabled(),
            final(self).spec_ram_enabled() == old(self).spec_ram_enabled(),
            final(self).spec_io_enabled() == enabled,
            final(self).rom_view() == old(self).rom_view(),
            final(self).ram_view() == old(self).ram_view(),
            final(self).io_slots() == old(self).io_slots(),
    {
        self.io_enabled = enabled;
    }

    /// Classifies the address into a region and checks that region's gate,
    /// before any device-level error can arise.
    fn validate_address(&self, address: u16) -> (r: MemoryMapperResult<()>)
        requires
            self.wf(),
        ensures
            r == self.validate_spec(address),
    {
        if (address as usize) < ROM_SIZE {
            if !self.rom_enabled {
                return Err(MemoryMapperError::RomNotLoaded);
            }
        } else if (address as usize) < ROM_SIZE + RAM_SIZE {
            if !self.ram_enabled {
                return Err(MemoryMapperError::RamNotLoaded);
            }
        } else if (address as usize) < ROM_SIZE + RAM_SIZE + IO_SIZE {
            if !self.io_enabled {
                return Err(MemoryMapperError::IoNotLoaded);
            }
        } else {
            return Err(MemoryMapperError::MemoryError(MemoryError::OutOfBounds));
        }
        Ok(())
    }

    /// Reads the byte at the address: gate check first, then the owning
    /// region. A populated IO slot answers for itself; the mapper only
    /// promises that its errors surface as `IOError`.
    pub fn read_u8(&self, address: u16) -> (r: MemoryMapperResult<u8>)
        requires
            self.wf(),
        ensures
            !self.io_call(address) ==> r == self.read_spec(address),
            self.io_call(address) ==> r is Ok || (exists|e: IODeviceError|
                r == Err::<u8, MemoryMapperError>(MemoryMapperError::IOError(e))),
    {
        self.validate_address(address)?;
        if (address as usize) < ROM_SIZE {
            propagate_result(
                self.rom.read_u8(address),
                (|error: MemoryError| -> (r: MemoryMapperError)
                    ensures
                        r == MemoryMapperError::MemoryError(error),
                    { MemoryMapperError::MemoryError(error) }),
            )
        } else if (address as usize) < ROM_SIZE + RAM_SIZE {
            propagate_result(
                self.ram.read_u8(address - (ROM_SIZE as u16)),
                (|error: MemoryError| -> (r: MemoryMapperError)
                    ensures
                        r == MemoryMapperError::MemoryError(error),
                    { MemoryMapperError::MemoryError(error) }),
            )
        } else {
            let idx = (address as usize) - ROM_SIZE - RAM_SIZE;
            match self.io[idx] {
                None => Err(MemoryMapperError::IoNotLoaded),
                Some(device) => propagate_result(
                    device.read_u8(address - (ROM_SIZE as u16) - (RAM_SIZE as u16)),
                    (|error: IODeviceError| -> (r: MemoryMapperError)
                        ensures
                            r == MemoryMapperError::IOError(error),
                        { MemoryMapperError::IOError(error) }),
                ),
            }
        }
    }

    /// Writes the byte at the address: gate check first, then the owning
    /// region. The ROM region rejects every write with `ReadOnly` whatever
    /// the address holds. On any error outside the IO region, nothing
    /// changes; an IO write is the device's own business, and the mapper
    /// promises the ROM, RAM and slot layout stay as they were.
    pub fn write_u8(&mut self, address: u16, value: u8) -> (r: MemoryMapperResult<()>)
        requires
            old(self).wf(),
        ensures
            final(self).wf(),
            Self::same_config(*old(self), *final(self)),
            !old(self).io_call(address) ==> r == old(self).write_result_spec(address),
            old(self).io_call(address) ==> r is Ok || (exists|e: IODeviceError|
                r == Err::<(), MemoryMapperError>(MemoryMapperError::IOError(e))),
            r == Ok::<(), MemoryMapperError>(()) && !old(self).io_call(address) ==> final(self).ram_view() == old(self).ram_view().update((address as int) - ROM_SIZE, value),
            !(r == Ok::<(), MemoryMapperError>(()) && !old(self).io_call(address)) ==> final(self).ram_view() == old(self).ram_view(),
            forall|k: int|
                0 <= k < IO_SIZE && k != (address as int) - ROM_SIZE - RAM_SIZE ==> (
                #[trigger] final(self).io_slots()[k]) == old(self).io_slots()[k],
    {
        self.validate_address(address)?;
        if (address as usize) < ROM_SIZE {
            Err(MemoryMapperError::MemoryError(MemoryError::ReadOnly))
        } else if (address as usize) < ROM_SIZE + RAM_SIZE {
            propagate_result(
                self.ram.write_u8(address - (ROM_SIZE as u16), value),
                (|error: MemoryError| -> (r: MemoryMapperError)
                    ensures
                        r == MemoryMapperError::MemoryError(error),
                    { MemoryMapperError::MemoryError(error) }),
            )
        } else {
            let idx = (address as usize) - ROM_SIZE - RAM_SIZE;
            let mut slot = self.io[idx];
            let r = match &mut slot {
                None => Err(MemoryMapperError::IoNotLoaded),
                Some(device) => propagate_result(
                    device.write_u8(address - (ROM_SIZE as u16) - (RAM_SIZE as u16), value),
                    (|error: IODeviceError| -> (r: MemoryMapperError)
                        ensures
                            r == MemoryMapperError::IOError(error),
                        { MemoryMapperError::IOError(error) }),
                ),
            };
            self.io.set(idx, slot);
            r
        }
    }

    /// Reads the big-endian 16-bit value at the address: the high byte at
    /// `address`, the low byte just after, each through the region gates.
    pub fn read_u16(&self, address: u16) -> (r: MemoryMapperResult<u16>)
        requires
            self.wf(),
        ensures
            self.validate_spec(address) is Err ==> r == Err::<u16, MemoryMapperError>(
                self.validate_spec(address).unwrap_err(),
            ),
            self.validate_spec(address) is Ok && !self.io_call(address) && !self.io_call(
                (address + 1) as u16,
            ) ==> r == (match self.read_spec(address) {
                Err(e) => Err::<u16, MemoryMapperError>(e),
                Ok(high) => match self.read_spec((address + 1) as u16) {
                    Err(e) => Err::<u16, MemoryMapperError>(e),
                    Ok(low) => Ok::<u16, MemoryMapperError>(word_from(high, low)),
                },
            }),
    {
        self.validate_address(address)?;
        let high = self.read_u8(address)?;
        let low = self.read_u8(address + 1)?;
        Ok((high as u16) * 256 + (low as u16))
    }

    /// Writes the big-endian 16-bit value at the address: the high byte to
    /// `address`, the low byte just after, each through the region gates.
    /// Every failure the mapper itself can foresee — a closed gate, an
    /// address past the regions, a ROM byte, an empty IO slot — is reported
    /// before either byte is applied; only a populated IO device can still
    /// fail between the two writes.
    pub fn write_u16(&mut self, address: u16, value: u16) -> (r: MemoryMapperResult<()>)
        requires
            old(self).wf(),
        ensures
            final(self).wf(),
            Self::same_config(*old(self), *final(self)),
            old(self).validate_spec(address) is Err ==> r == Err::<(), MemoryMapperError>(
                old(self).validate_spec(address).unwrap_err(),
            ) && *final(self) == *old(self),
            old(self).validate_spec(address) is Ok && old(self).validate_spec(
                (address + 1) as u16,
            ) is Err ==> r == Err::<(), MemoryMapperError>(
                old(self).validate_spec((address + 1) as u16).unwrap_err(),
            ) && *final(self) == *old(self),
            old(self).validate_spec(address) is Ok && old(self).validate_spec(
                (address + 1) as u16,
            ) is Ok && Self::in_rom_region(address) ==> r == Err::<(), MemoryMapperError>(
                MemoryMapperError::MemoryError(MemoryError::ReadOnly),
            ) && *final(self) == *old(self),
            old(self).validate_spec(address) is Ok && old(self).validate_spec(
                (address + 1) as u16,
            ) is Ok && !Self::in_rom_region(address) && ((Self::in_io_region(address) && old(
                self,
            ).io_slots()[(address as int) - ROM_SIZE - RAM_SIZE] is None) || (Self::in_io_region(
                (address + 1) as u16,
            ) && old(self).io_slots()[(address as int) + 1 - ROM_SIZE - RAM_SIZE] is None)) ==> r
                == Err::<(), MemoryMapperError>(MemoryMapperError::IoNotLoaded) && *final(self)
                == *old(self),
            Self::in_ram_region(address) && Self::in_ram_region((address + 1) as u16) && old(self).spec_ram_enabled() ==> r == Ok::<(), MemoryMapperError>(()) && final(self).ram_view()
                == old(self).ram_view().update(
                (address as int) - ROM_SIZE,
                word_high(value),
            ).update((address as int) + 1 - ROM_SIZE, word_low(value)),
            forall|k: int|
                0 <= k < RAM_SIZE && k != (address as int) - ROM_SIZE && k != (address as int) + 1
                    - ROM_SIZE ==> (#[trigger] final(self).ram_view()[k]) == old(self).ram_view()[k],
    {
        self.validate_address(address)?;
        let address2 = address + 1;
        self.validate_address(address2)?;
        if (address as usize) < ROM_SIZE {
            return Err(MemoryMapperError::MemoryError(MemoryError::ReadOnly));
        }
        if (address as usize) >= ROM_SIZE + RAM_SIZE {
            let idx = (address as usize) - ROM_SIZE - RAM_SIZE;
            if self.io[idx].is_none() {
                return Err(MemoryMapperError::IoNotLoaded);
            }
        }
        if (address2 as usize) >= ROM_SIZE + RAM_SIZE {
            let idx2 = (address2 as usize) - ROM_SIZE - RAM_SIZE;
            if self.io[idx2].is_none() {
                return Err(MemoryMapperError::IoNotLoaded);
            }
        }
        let high = (value / 256) as u8;
        let low = (value % 256) as u8;
        self.write_u8(address, high)?;
        self.write_u8(address2, low)?;
        Ok(())
    }
}

} // verus!
