//! The instruction engine: one handler for each instruction class, and the
//! executor that decodes an instruction and hands it to its handler.
//!
//! A handler never writes to memory. It records its writes in the
//! [`InstructionResult`], next to the registers and the cycles, and the
//! processor commits all three when the handler has returned.

pub mod arithmetic;
pub mod bitwise;
pub mod branch;
pub mod common;
pub mod compare;
pub mod executor;
pub mod flag;
pub mod interrupt;
pub mod load;
pub mod nop;
pub mod stack;
pub mod store;
pub mod transfer;

pub use executor::{Executor, InstructionResult, InstructionResultView, Write};
