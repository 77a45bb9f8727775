//! An interpreter core for the CHIP-8 virtual machine.
//!
//! A [`Chip8`] holds 4096 bytes of memory, sixteen registers, a call stack,
//! a 64 by 32 screen, two timers and sixteen keys. A host loads a program,
//! calls [`Chip8::step`] once per instruction, feeds key presses in and
//! reads the screen out.
//!
//! The meaning of every instruction is written down once, in
//! [`semantics`], over the mathematical model of the machine in [`state`].
//! The machine in [`machine`] is proved to do exactly that, and the laws in
//! [`laws`] are proved from it.

pub mod alu;
pub mod clock;
pub mod decode;
pub mod display;
pub mod entropy;
pub mod font;
pub mod instruction;
pub mod laws;
pub mod machine;
pub mod semantics;
pub mod state;

pub use crate::machine::Chip8;
