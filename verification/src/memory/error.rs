use vstd::prelude::*;

verus! {

/// Errors reported by the simple byte-addressed memory devices.
#[derive(Debug, Clone, Copy, PartialEq, Eq, Structural)]
pub enum MemoryError {
    /// The address lies outside the device.
    OutOfBounds,
    /// The device rejects writes.
    ReadOnly,
    /// Any other failure.
    Unexpected,
}

pub type MemoryResult<T> = Result<T, MemoryError>;

impl MemoryError {
    /// The numeric code of an error, as carried on 8-bit device buses.
    pub open spec fn spec_code(self) -> u8 {
        match self {
            MemoryError::OutOfBounds => 0,
            MemoryError::ReadOnly => 1,
            MemoryError::Unexpected => 2,
        }
    }

    /// The error a numeric code decodes to; codes above the known ones
    /// collapse to `Unexpected`.
    pub open spec fn from_code(value: u8) -> MemoryError {
        if value == 0 {
            MemoryError::OutOfBounds
        } else if value == 1 {
            MemoryError::ReadOnly
        } else {
            MemoryError::Unexpected
        }
    }
}

impl From<MemoryError> for u8 {
    fn from(error: MemoryError) -> (r: u8)
        ensures
            r == error.spec_code(),
    {
        match error {
            MemoryError::OutOfBounds => 0,
            MemoryError::ReadOnly => 1,
            MemoryError::Unexpected => 2,
        }
    }
}

impl vstd::std_specs::convert::FromSpecImpl<MemoryError> for u8 {
    open spec fn obeys_from_spec() -> bool {
        true
    }

    open spec fn from_spec(error: MemoryError) -> u8 {
        error.spec_code()
    }
}

impl From<u8> for MemoryError {
    fn from(value: u8) -> (r: MemoryError)
        ensures
            r == MemoryError::from_code(value),
    {
        match value {
            0 => MemoryError::OutOfBounds,
            1 => MemoryError::ReadOnly,
            _ => MemoryError::Unexpected,
        }
    }
}

impl vstd::std_specs::convert::FromSpecImpl<u8> for MemoryError {
    open spec fn obeys_from_spec() -> bool {
        true
    }

    open spec fn from_spec(value: u8) -> MemoryError {
        MemoryError::from_code(value)
    }
}

} // verus!
