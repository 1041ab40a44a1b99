//! A MOS 6502 emulation library: the instruction engine, a segmented memory
//! map that multiplexes RAM, ROM and peripheral devices, and the devices of
//! the Hasseldorf homebrew computer built on top of it.
//!
//! To test some 6502 code, set up a system that has no IO devices, run the
//! code and check the result: build a [`MemoryMap`] of RAM and ROM, hand it
//! to a [`Cpu`], and step. To add a memory-mapped peripheral, implement
//! [`MemoryMappedDevice`] for it and add it to the memory map with the
//! builder.
//!
//! Every function of this crate carries a contract that Verus proves; the
//! contracts speak of small mathematical models of the registers, the status
//! word and the memory map.

pub mod register_status;
pub mod registers;
pub mod bus;
pub mod device;
pub mod memory;
pub mod opcode;
pub mod instruction;
pub mod cpu;
pub mod hassel;
pub mod emulator;

pub use cpu::{Cpu, CpuView};
pub use emulator::Emulator;
pub use instruction::{Executor, InstructionResult, InstructionResultView, Write};
pub use memory::{
    DebugMemoryView, Device, InterruptType, MemoryBus, MemoryMap, MemoryMapBuilder, MemoryMapError,
    MemoryMappedDevice, MemorySegment, NormalMemoryView, NullDevice, RAMDevice, ROMDevice,
    ReadMemory, ReadMemoryMut, SteppedDevice, WriteMemory, WriteMemoryView,
};
pub use opcode::{DecodeError, Op, OpAddressMode, OpClass, OpCode, OpParam, decode_op};
pub use register_status::{RegisterStatus, StatusFlags};
pub use registers::{Registers, RegistersView};
