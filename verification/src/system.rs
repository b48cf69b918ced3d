//! The machine: its state, its instruction set and the interpreter.

pub mod debug;
pub mod error;
pub mod fonts;
pub mod interp;
pub mod laws;
pub mod machine;
pub mod model;
pub mod opcode;
pub mod screen;
pub mod state;
pub mod text;

pub use error::SystemError;
pub use machine::System;
pub use state::{Keys, KeyWait, Registers, Stack, Timers};
