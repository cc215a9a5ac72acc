//! A minimal CPU abstraction: the `CPU` and `RegisterFile` traits, a small
//! test CPU with an identity instruction codec, and the flag bit set.

pub mod cpu_impl;
pub mod error;
pub mod traits;
pub mod register_files;
