//! A CHIP-8 virtual machine: registers, memory, call stack, display and keypad,
//! and the instruction set that acts on them.
//!
//! Every instruction is specified by a transition of [`state::MachineState`],
//! the machine seen as plain values; [`laws`] proves what holds across
//! instructions.

pub mod registers;
pub mod stack;
pub mod input;
pub mod memory;
pub mod graphics;
pub mod random;
pub mod state;
pub mod vm;
pub mod laws;

pub use vm::VM;
pub mod instruction_laws;
