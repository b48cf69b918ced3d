//! A cycle-stepped CHIP-8 virtual machine: machine state, instruction decoder,
//! per-instruction semantics and the interpreter's `tick`.

pub mod harness;
pub mod keys;
pub mod system;
