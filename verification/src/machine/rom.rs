use crate::memory::error::{MemoryError, MemoryResult};
use vstd::prelude::*;

verus! {

/// Read-only memory of exactly `SIZE` bytes, fixed at construction. The view
/// is the stored bytes.
pub struct ROM<const SIZE: usize> {
    data: Vec<u8>,
}

impl<const SIZE: usize> View for ROM<SIZE> {
    type V = Seq<u8>;

    closed spec fn view(&self) -> Seq<u8> {
        self.data@
    }
}

impl<const SIZE: usize> ROM<SIZE> {
    /// The memory holds exactly `SIZE` bytes and `SIZE` fits the address
    /// space.
    pub open spec fn wf(&self) -> bool {
        self@.len() == SIZE && SIZE <= 0xFFFF
    }

    /// A ROM over the given contents, which must be exactly `SIZE` bytes.
    pub fn new(data: Vec<u8>) -> (r: ROM<SIZE>)
        requires
            data@.len() == SIZE,
            SIZE <= 0xFFFF,
        ensures
            r.wf(),
            r@ == data@,
    {
        ROM { data }
    }

    /// The number of bytes the memory holds.
    pub fn get_size(&self) -> (r: usize)
        requires
            self.wf(),
        ensures
            r == SIZE,
    {
        self.data.len()
    }

    /// Reads the byte at the address; `OutOfBounds` past the end.
    pub fn read_u8(&self, address: u16) -> (r: MemoryResult<u8>)
        requires
            self.wf(),
        ensures
            (address as int) < SIZE ==> r == Ok::<u8, MemoryError>(self@[address as int]),
            (address as int) >= SIZE ==> r == Err::<u8, MemoryError>(MemoryError::OutOfBounds),
    {
        if (address as usize) < self.data.len() {
            Ok(self.data[address as usize])
        } else {
            Err(MemoryError::OutOfBounds)
        }
    }
}

} // verus!
