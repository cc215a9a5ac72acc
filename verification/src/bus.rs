//! The address bus: a device model, mapped devices with inclusive address
//! ranges and a protection flag, and a mapper that routes each access to the
//! first attached device whose range contains the address.

pub mod bus_trait;
pub mod device;
pub mod mapper;
