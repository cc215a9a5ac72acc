use crate::memory::error::{MemoryError, MemoryResult};
use crate::memory::traits::Memory;
use vstd::prelude::*;

verus! {

/// Read-only memory holding exactly `SIZE` bytes. Every write is rejected
/// with `ReadOnly`; out-of-bounds accesses fail with `OutOfBounds`.
pub struct ROM<const SIZE: usize> {
    data: Vec<u8>,
}

impl<const SIZE: usize> View for ROM<SIZE> {
    type V = Seq<u8>;

    closed spec fn view(&self) -> Seq<u8> {
        self.data@
    }
}

impl<const SIZE: usize> ROM<SIZE> {
    #[verifier::type_invariant]
    spec fn type_inv(self) -> bool {
        self.data@.len() == SIZE && SIZE <= 0xFFFF
    }

    /// A ROM over the given contents, which must be exactly `SIZE` bytes.
    pub fn new(data: Vec<u8>) -> (r: ROM<SIZE>)
        requires
            data@.len() == SIZE,
            SIZE <= 0xFFFF,
        ensures
            r@ == data@,
    {
        ROM { data }
    }
}

impl<const SIZE: usize> crate::bus::device::MemoryDevice for ROM<SIZE> {
    open spec fn valid_addr(&self, addr: u16) -> bool {
        (addr as int) < self@.len()
    }

    open spec fn can_write(&self, addr: u16) -> bool {
        false
    }

    open spec fn value_at(&self, addr: u16) -> u8 {
        if (addr as int) < self@.len() {
            self@[addr as int]
        } else {
            0
        }
    }

    open spec fn reset_value(&self, addr: u16) -> u8 {
        if (addr as int) < self@.len() {
            self@[addr as int]
        } else {
            0
        }
    }

    open spec fn spec_size(&self) -> nat {
        self@.len()
    }

    fn read(&self, address: u16) -> (r: Result<u8, crate::bus::device::MemoryError>) {
        if (address as usize) < self.data.len() {
            Ok(self.data[address as usize])
        } else {
            Err(crate::bus::device::MemoryError::AddressOutOfBounds)
        }
    }

    fn write(&mut self, address: u16, _value: u8) -> (r: Result<
        (),
        crate::bus::device::MemoryError,
    >) {
        if (address as usize) < self.data.len() {
            Err(crate::bus::device::MemoryError::ReadOnlyMemory)
        } else {
            Err(crate::bus::device::MemoryError::AddressOutOfBounds)
        }
    }

    fn reset(&mut self) {
    }

    fn size(&self) -> (r: usize) {
        self.data.len()
    }
}

impl<const SIZE: usize> Memory for ROM<SIZE> {
    fn read_u8(&self, address: u16) -> (r: MemoryResult<u8>)
        ensures
            (address as int) < self@.len() ==> r == Ok::<u8, MemoryError>(self@[address as int]),
            (address as int) >= self@.len() ==> r == Err::<u8, MemoryError>(
                MemoryError::OutOfBounds,
            ),
    {
        proof {
            use_type_invariant(self);
        }
        if (address as usize) < self.data.len() {
            Ok(self.data[address as usize])
        } else {
            Err(MemoryError::OutOfBounds)
        }
    }

    fn write_u8(&mut self, address: u16, _value: u8) -> (r: MemoryResult<()>)
        ensures
            final(self)@ == old(self)@,
            (address as int) < old(self)@.len() ==> r == Err::<(), MemoryError>(
                MemoryError::ReadOnly,
            ),
            (address as int) >= old(self)@.len() ==> r == Err::<(), MemoryError>(
                MemoryError::OutOfBounds,
            ),
    {
        proof {
            use_type_invariant(&*self);
        }
        if (address as usize) < self.data.len() {
            Err(MemoryError::ReadOnly)
        } else {
            Err(MemoryError::OutOfBounds)
        }
    }

    fn get_size(&self) -> (r: usize)
        ensures
            r == self@.len(),
            r == SIZE,
    {
        proof {
            use_type_invariant(self);
        }
        self.data.len()
    }
}

} // verus!
