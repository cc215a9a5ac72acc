use vstd::prelude::*;

verus! {

/// Errors raised by IO devices on the mapper's IO region.
#[derive(Debug, Clone, Copy, PartialEq, Eq, Structural)]
pub enum IODeviceError {
    /// The address is outside the device.
    OutOfBounds,
    /// The device rejects writes.
    ReadOnly,
    /// Any other failure the library can name.
    Unexpected,
    /// A device-specific error code.
    DeviceError(u8),
}

pub type IOResult<T> = Result<T, IODeviceError>;

impl IODeviceError {
    /// The numeric code of an error, as carried on 8-bit device buses.
    pub open spec fn spec_code(self) -> u8 {
        match self {
            IODeviceError::OutOfBounds => 0,
            IODeviceError::ReadOnly => 1,
            IODeviceError::Unexpected => 2,
            IODeviceError::DeviceError(value) => value,
        }
    }

    /// The error a numeric code decodes to; codes past the named ones carry
    /// the device's own meaning.
    pub open spec fn from_code(value: u8) -> IODeviceError {
        if value == 0 {
            IODeviceError::OutOfBounds
        } else if value == 1 {
            IODeviceError::ReadOnly
        } else if value == 2 {
            IODeviceError::Unexpected
        } else {
            IODeviceError::DeviceError(value)
        }
    }
}

impl From<IODeviceError> for u8 {
    fn from(error: IODeviceError) -> (r: u8)
        ensures
            r == error.spec_code(),
    {
        match error {
            IODeviceError::OutOfBounds => 0,
            IODeviceError::ReadOnly => 1,
            IODeviceError::Unexpected => 2,
            IODeviceError::DeviceError(value) => value,
        }
    }
}

impl vstd::std_specs::convert::FromSpecImpl<IODeviceError> for u8 {
    open spec fn obeys_from_spec() -> bool {
        true
    }

    open spec fn from_spec(error: IODeviceError) -> u8 {
        error.spec_code()
    }
}

impl From<u8> for IODeviceError {
    fn from(value: u8) -> (r: IODeviceError)
        ensures
            r == IODeviceError::from_code(value),
    {
        match value {
            0 => IODeviceError::OutOfBounds,
            1 => IODeviceError::ReadOnly,
            2 => IODeviceError::Unexpected,
            _ => IODeviceError::DeviceError(value),
        }
    }
}

impl vstd::std_specs::convert::FromSpecImpl<u8> for IODeviceError {
    open spec fn obeys_from_spec() -> bool {
        true
    }

    open spec fn from_spec(value: u8) -> IODeviceError {
        IODeviceError::from_code(value)
    }
}

/// A device on the mapper's IO region, addressed relative to its slot.
/// Implementations come from callers of the library; the mapper promises
/// nothing about what such a device returns, only about when it is reached.
pub trait IODevice: Sized + Copy {
    fn validate_address(&self, address: u16) -> IOResult<()>;

    fn read_u8(&self, address: u16) -> IOResult<u8>;

    fn write_u8(&mut self, address: u16, value: u8) -> IOResult<()>;
}

} // verus!
