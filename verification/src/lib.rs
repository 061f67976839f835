//! A CHIP-8 virtual machine whose interpreter is verified with Verus.
//!
//! The crate has three layers.
//!
//! * [`model`] is the mathematical machine state, a record of sequences and
//!   integers, with the small state transformers that every instruction is
//!   built from.
//! * [`instruction`] is the instruction set: the decoded form of an
//!   instruction word, its encoding, and the decoder.
//! * [`semantics`] says, as a function on the mathematical state, what each
//!   instruction does, and [`laws`] proves what follows from it.
//!
//! [`machine::VirtualMachine`] is the executable machine. Each of its
//! operations is proved to compute what the semantics prescribes, and none of
//! them can panic. A driver creates a machine, loads a program, and calls
//! [`machine::VirtualMachine::tick`] for every cycle and
//! [`machine::VirtualMachine::tick_timers`] sixty times a second.
mod display;
pub mod fault;
pub mod font;
pub mod instruction;
pub mod laws;
pub mod machine;
pub mod model;
mod random;
pub mod semantics;

pub use fault::Fault;
pub use font::get_chip8_fontset;
pub use instruction::{decode, Instruction};
pub use machine::{
    cpu_cycle,
    fetch_instruction,
    get_delay_timer,
    get_graphics,
    get_inputs,
    get_memory,
    get_registers,
    get_sound_timer,
    VirtualMachine,
};
