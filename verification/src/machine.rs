//! A concrete little machine: bit-packed opcodes with a binary instruction
//! codec, a register file with scalar registers and big-endian pairs, flat
//! memory, a region-gated ROM/RAM/IO mapper, and the fetch-decode-execute
//! engine.

pub mod cpu;
pub mod io;
pub mod isa;
pub mod mapper;
pub mod memory;
pub mod ram;
pub mod registers;
pub mod rom;
