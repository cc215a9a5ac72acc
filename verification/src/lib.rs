//! A small verified CPU-emulation framework.
//!
//! The crate provides byte-addressed memory devices (RAM, ROM), an address
//! bus that routes reads and writes to attached devices by range, a
//! region-gated ROM/RAM/IO memory mapper, bit-packed opcodes with a binary
//! instruction codec, and a fetch-decode-execute engine over a register file
//! with scalar registers and big-endian register pairs.

pub mod arch;
pub mod bus;
pub mod cpu;
pub mod framework;
pub mod isa;
pub mod machine;
pub mod memory;
