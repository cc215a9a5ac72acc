use crate::memory::error::{MemoryError, MemoryResult};
use crate::memory::traits::Memory;
use vstd::prelude::*;

verus! {

/// Read-write memory of a size chosen at construction. The view of a `RAM`
/// is the sequence of bytes it stores.
#[derive(Debug, PartialEq, Eq, Clone)]
pub struct RAM {
    data: Vec<u8>,
}

impl View for RAM {
    type V = Seq<u8>;

    closed spec fn view(&self) -> Seq<u8> {
        self.data@
    }
}

impl RAM {
    /// A zero-filled memory of `size` bytes.
    pub fn new(size: usize) -> (r: RAM)
        ensures
            r@ == Seq::new(size as nat, |i: int| 0u8),
    {
        let mut data: Vec<u8> = Vec::new();
        let mut i: usize = 0;
        while i < size
            invariant
                i <= size,
                data@ == Seq::new(i as nat, |j: int| 0u8),
            decreases size - i,
        {
            data.push(0);
            i = i + 1;
            proof {
                assert(data@ =~= Seq::new(i as nat, |j: int| 0u8));
            }
        }
        proof {
            assert(data@ =~= Seq::new(size as nat, |j: int| 0u8));
        }
        RAM { data }
    }

    /// A memory initialised with the given bytes.
    pub fn new_with_data(data: Vec<u8>) -> (r: RAM)
        ensures
            r@ == data@,
    {
        RAM { data }
    }
}

impl crate::bus::device::MemoryDevice for RAM {
    open spec fn valid_addr(&self, addr: u16) -> bool {
        (addr as int) < self@.len()
    }

    open spec fn can_write(&self, addr: u16) -> bool {
        (addr as int) < self@.len()
    }

    open spec fn value_at(&self, addr: u16) -> u8 {
        if (addr as int) < self@.len() {
            self@[addr as int]
        } else {
            0
        }
    }

    open spec fn reset_value(&self, addr: u16) -> u8 {
        0
    }

    open spec fn spec_size(&self) -> nat {
        self@.len()
    }

    fn read(&self, address: u16) -> (r: Result<u8, crate::bus::device::MemoryError>) {
        if (address as usize) < self.data.len() {
            Ok(self.data[address as usize])
        } else {
            Err(crate::bus::device::MemoryError::AddressOutOfBounds)
        }
    }

    fn write(&mut self, address: u16, value: u8) -> (r: Result<
        (),
        crate::bus::device::MemoryError,
    >) {
        if (address as usize) < self.data.len() {
            self.data.set(address as usize, value);
            Ok(())
        } else {
            Err(crate::bus::device::MemoryError::AddressOutOfBounds)
        }
    }

    fn reset(&mut self) {
        let n = self.data.len();
        let mut i: usize = 0;
        while i < n
            invariant
                n == self@.len(),
                i <= n,
                forall|k: int| 0 <= k < i ==> self@[k] == 0u8,
                forall|k: int| i <= k < n ==> self@[k] == old(self)@[k],
            decreases n - i,
        {
            self.data.set(i, 0);
            i = i + 1;
        }
    }

    fn size(&self) -> (r: usize) {
        self.data.len()
    }
}

impl Memory for RAM {
    fn read_u8(&self, address: u16) -> (r: MemoryResult<u8>)
        ensures
            (address as int) < self@.len() ==> r == Ok::<u8, MemoryError>(self@[address as int]),
            (address as int) >= self@.len() ==> r == Err::<u8, MemoryError>(
                MemoryError::OutOfBounds,
            ),
    {
        if (address as usize) < self.data.len() {
            Ok(self.data[address as usize])
        } else {
            Err(MemoryError::OutOfBounds)
        }
    }

    fn write_u8(&mut self, address: u16, value: u8) -> (r: MemoryResult<()>)
        ensures
            (address as int) < old(self)@.len() ==> r == Ok::<(), MemoryError>(())
                && final(self)@ == old(self)@.update(address as int, value),
            (address as int) >= old(self)@.len() ==> r == Err::<(), MemoryError>(
                MemoryError::OutOfBounds,
            ) && final(self)@ == old(self)@,
    {
        if (address as usize) < self.data.len() {
            self.data.set(address as usize, value);
            Ok(())
        } else {
            Err(MemoryError::OutOfBounds)
        }
    }

    fn get_size(&self) -> (r: usize)
        ensures
            r == self@.len(),
    {
        self.data.len()
    }
}

} // verus!
