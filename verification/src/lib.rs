//! A verified CHIP-8 interpreter core.
//!
//! The crate models the classic CHIP-8 virtual machine: 4 KB of memory,
//! sixteen 8-bit registers, a 16-entry call stack, two 60 Hz countdown
//! timers, a 64x32 monochrome framebuffer and a 16-key keypad.  The host
//! drives the machine by calling [`machine::Chip8::cycle`] once per
//! instruction and [`machine::Chip8::update_timers`] at 60 Hz; rendering,
//! audio and input live outside the core.
//!
//! Every opcode's effect is stated as a mathematical transition function
//! over [`machine::MachineV`] (the abstract machine state), and the
//! executable engine is proved to implement exactly those transitions.

pub mod decode;
pub mod engine;
pub mod laws;
pub mod machine;
pub mod semantics;
