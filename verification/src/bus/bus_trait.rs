use crate::bus::device::{MemoryDevice, MemoryError};
use vstd::prelude::*;

verus! {

/// A memory bus: a device that also lets callers attach further devices to
/// address ranges and take them back. Ownership of an attached device passes
/// to the bus and returns to the caller only through `remove_device`.
pub trait MemoryBus<D: MemoryDevice>: MemoryDevice {
    fn attach_device(
        &mut self,
        start_addr: u16,
        end_addr: u16,
        write_only: bool,
        device: D,
    ) -> Result<(), MemoryError>;

    fn remove_device(&mut self, start_addr: u16) -> Option<D>;
}

} // verus!
