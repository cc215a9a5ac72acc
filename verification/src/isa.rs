//! A byte-packed instruction surface: opcodes, addressing-mode catalogue and
//! the identity codec used by the test CPU.

pub mod instruction;
pub mod opcode;
pub mod traits;
