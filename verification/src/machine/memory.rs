use crate::memory::error::{MemoryError, MemoryResult};
use crate::machine::registers::{word_from, word_high, word_low};
use vstd::prelude::*;

verus! {

/// Flat byte memory of `M` cells, `M` even, positive and within the 16-bit
/// address space. The view is the stored byte sequence. 16-bit accesses are
/// two byte accesses, high byte first (big-endian), and fail atomically:
/// on any error nothing is written.
pub struct Memory<const M: usize> {
    data: Vec<u8>,
}

impl<const M: usize> View for Memory<M> {
    type V = Seq<u8>;

    closed spec fn view(&self) -> Seq<u8> {
        self.data@
    }
}

impl<const M: usize> Memory<M> {
    /// The memory holds exactly `M` bytes and `M` fits the address space.
    pub open spec fn wf(&self) -> bool {
        self@.len() == M && 1 <= M <= 0xFFFF
    }

    /// A zero-filled memory.
    pub fn new() -> (r: Memory<M>)
        requires
            1 <= M <= 0xFFFF,
            M % 2 == 0,
        ensures
            r.wf(),
            r@ == Seq::new(M as nat, |i: int| 0u8),
    {
        let mut data: Vec<u8> = Vec::new();
        let mut i: usize = 0;
        while i < M
            invariant
                i <= M,
                data@ == Seq::new(i as nat, |j: int| 0u8),
            decreases M - i,
        {
            data.push(0);
            i = i + 1;
            proof {
                assert(data@ =~= Seq::new(i as nat, |j: int| 0u8));
            }
        }
        Memory { data }
    }

    /// The bytes from `start` to the end, as the decoder wants them.
    pub(crate) fn bytes_from(&self, start: u16) -> (r: &[u8])
        requires
            self.wf(),
            (start as int) <= self@.len(),
        ensures
            r@ == self@.skip(start as int),
    {
        vstd::slice::slice_subrange(self.data.as_slice(), start as usize, self.data.len())
    }

    /// Checks that the address is inside the memory.
    fn validate_address(&self, address: u16) -> (r: MemoryResult<()>)
        requires
            self.wf(),
        ensures
            (address as int) < M ==> r == Ok::<(), MemoryError>(()),
            (address as int) >= M ==> r == Err::<(), MemoryError>(MemoryError::OutOfBounds),
    {
        if (address as usize) < self.data.len() {
            Ok(())
        } else {
            Err(MemoryError::OutOfBounds)
        }
    }

    /// Reads the byte at the address; `OutOfBounds` past the end.
    pub fn read_u8(&self, address: u16) -> (r: MemoryResult<u8>)
        requires
            self.wf(),
        ensures
            (address as int) < M ==> r == Ok::<u8, MemoryError>(self@[address as int]),
            (address as int) >= M ==> r == Err::<u8, MemoryError>(MemoryError::OutOfBounds),
    {
        self.validate_address(address)?;
        Ok(self.data[address as usize])
    }

    /// Writes the byte at the address; `OutOfBounds` past the end, and then
    /// nothing changes.
    pub fn write_u8(&mut self, address: u16, value: u8) -> (r: MemoryResult<()>)
        requires
            old(self).wf(),
        ensures
            final(self).wf(),
            (address as int) < M ==> r == Ok::<(), MemoryError>(()) && final(self)@ == old(
                self,
            )@.update(address as int, value),
            (address as int) >= M ==> r == Err::<(), MemoryError>(MemoryError::OutOfBounds)
                && final(self)@ == old(self)@,
    {
        self.validate_address(address)?;
        self.data.set(address as usize, value);
        Ok(())
    }

    /// Reads the big-endian 16-bit value at the address: the high byte at
    /// `address`, the low byte just after. Both bytes must be inside the
    /// memory.
    pub fn read_u16(&self, address: u16) -> (r: MemoryResult<u16>)
        requires
            self.wf(),
        ensures
            (address as int) + 1 < M ==> r == Ok::<u16, MemoryError>(
                word_from(self@[address as int], self@[address as int + 1]),
            ),
            (address as int) + 1 >= M ==> r == Err::<u16, MemoryError>(MemoryError::OutOfBounds),
    {
        if (address as usize) + 1 >= self.data.len() {
            return Err(MemoryError::OutOfBounds);
        }
        let high = self.data[address as usize];
        let low = self.data[address as usize + 1];
        Ok((high as u16) * 256 + (low as u16))
    }

    /// Writes the big-endian 16-bit value at the address: the high byte to
    /// `address`, the low byte just after. Fails atomically: if either byte
    /// would land outside the memory, nothing is written.
    pub fn write_u16(&mut self, address: u16, value: u16) -> (r: MemoryResult<()>)
        requires
            old(self).wf(),
        ensures
            final(self).wf(),
            (address as int) + 1 < M ==> r == Ok::<(), MemoryError>(()) && final(self)@ == old(
                self,
            )@.update(address as int, word_high(value)).update(
                address as int + 1,
                word_low(value),
            ),
            (address as int) + 1 >= M ==> r == Err::<(), MemoryError>(MemoryError::OutOfBounds)
                && final(self)@ == old(self)@,
    {
        if (address as usize) + 1 >= self.data.len() {
            return Err(MemoryError::OutOfBounds);
        }
        let high = (value / 256) as u8;
        let low = (value % 256) as u8;
        self.data.set(address as usize, high);
        self.data.set(address as usize + 1, low);
        Ok(())
    }
}

} // verus!
