//! Architecture-neutral interfaces: instruction-set, CPU and register-file
//! traits, with the error taxonomy they share.

pub mod cpu;
pub mod isa;
