//! A CHIP-8 virtual machine core: an opcode decoder, an executor over an
//! explicitly owned machine state, and the timer schedule that runs beside it.

pub mod laws;
pub mod machine;
pub mod model;
pub mod opcode;
pub mod timing;
