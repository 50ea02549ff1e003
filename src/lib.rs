//! An emulator core for an 8-bit virtual machine: instruction codec, memory,
//! display, execution engine, real-time timers and a hook pipeline.

mod address;
mod data;
mod register;

pub mod control;
pub mod display;
pub mod engine;
pub mod execute;
pub mod hooks;
pub mod instruction;
pub mod key;
pub mod machine;
pub mod memory;
pub mod timing;

pub use address::{Address, ADDRESS_MAX, NUMBER_OF_ADDRESSES, PROGRAM_START_INDEX};
pub use data::{Datum, Nibble};
pub use display::Display;
pub use engine::Chip8Interpreter;
pub use instruction::{Instruction, InstructionDecodeError, RawInstruction};
pub use register::GeneralRegister;
pub mod realtime;
