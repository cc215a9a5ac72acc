//! Byte-addressed memory devices: growable RAM, fixed-size ROM, and the
//! `Memory` access trait they share.

pub mod error;
pub mod ram;
pub mod rom;
pub mod traits;
