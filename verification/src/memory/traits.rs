use crate::memory::error::MemoryResult;
use vstd::prelude::*;

verus! {

/// A byte-addressed memory device. Implementations state exactly what each
/// access returns; the trait itself only fixes the shape of the interface.
pub trait Memory {
    fn read_u8(&self, address: u16) -> MemoryResult<u8>;

    fn write_u8(&mut self, address: u16, value: u8) -> MemoryResult<()>;

    fn get_size(&self) -> usize;
}

} // verus!
