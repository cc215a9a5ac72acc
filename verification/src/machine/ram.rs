use crate::memory::error::{MemoryError, MemoryResult};
use vstd::prelude::*;

verus! {

/// Read-write memory of exactly `SIZE` bytes. The view is the stored bytes.
pub struct RAM<const SIZE: usize> {
    data: Vec<u8>,
}

impl<const SIZE: usize> View for RAM<SIZE> {
    type V = Seq<u8>;

    closed spec fn view(&self) -> Seq<u8> {
        self.data@
    }
}

impl<const SIZE: usize> RAM<SIZE> {
    /// The memory holds exactly `SIZE` bytes and `SIZE` fits the address
    /// space.
    pub open spec fn wf(&self) -> bool {
        self@.len() == SIZE && SIZE <= 0xFFFF
    }

    /// A zero-filled memory.
    pub fn new() -> (r: RAM<SIZE>)
        requires
            SIZE <= 0xFFFF,
        ensures
            r.wf(),
            r@ == Seq::new(SIZE as nat, |i: int| 0u8),
    {
        let mut data: Vec<u8> = Vec::new();
        let mut i: usize = 0;
        while i < SIZE
            invariant
                i <= SIZE,
                data@ == Seq::new(i as nat, |j: int| 0u8),
            decreases SIZE - i,
        {
            data.push(0);
            i = i + 1;
            proof {
                assert(data@ =~= Seq::new(i as nat, |j: int| 0u8));
            }
        }
        RAM { data }
    }

    /// The number of bytes the memory holds.
    pub fn get_size(&self) -> (r: usize)
        requires
            self.wf(),
        ensures
            r == SIZE,
    {
        self.data.len()
    }

    /// Reads the byte at the address; `OutOfBounds` past the end.
    pub fn read_u8(&self, address: u16) -> (r: MemoryResult<u8>)
        requires
            self.wf(),
        ensures
            (address as int) < SIZE ==> r == Ok::<u8, MemoryError>(self@[address as int]),
            (address as int) >= SIZE ==> r == Err::<u8, MemoryError>(MemoryError::OutOfBounds),
    {
        if (address as usize) < self.data.len() {
            Ok(self.data[address as usize])
        } else {
            Err(MemoryError::OutOfBounds)
        }
    }

    /// Writes the byte at the address; `OutOfBounds` past the end, and then
    /// nothing changes.
    pub fn write_u8(&mut self, address: u16, value: u8) -> (r: MemoryResult<()>)
        requires
            old(self).wf(),
        ensures
            final(self).wf(),
            (address as int) < SIZE ==> r == Ok::<(), MemoryError>(()) && final(self)@ == old(
                self,
            )@.update(address as int, value),
            (address as int) >= SIZE ==> r == Err::<(), MemoryError>(MemoryError::OutOfBounds)
                && final(self)@ == old(self)@,
    {
        if (address as usize) < self.data.len() {
            self.data.set(address as usize, value);
            Ok(())
        } else {
            Err(MemoryError::OutOfBounds)
        }
    }
}

} // verus!
