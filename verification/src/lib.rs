//! An interpreter for an 8-bit virtual machine with a 64 by 32 pixel display.
//!
//! [`Emulator`] holds the whole state of the machine: memory, registers,
//! program counter, call stack, timers, keys and display. A host loads a
//! program, then calls [`Emulator::step`] once per instruction and
//! [`Emulator::tick_timer`] sixty times a second, sets the keys between
//! steps and reads the display to render it.
//!
//! A step that cannot be taken is a [`Fault`]: [`Emulator::step`] returns it
//! and leaves the machine as it was. [`Emulator::tick`] is the same step for
//! callers that know it can be taken. Nothing here panics or does I/O.
//!
//! What each operation does is stated over [`State`], the model of the
//! machine, and proved; [`laws`] holds what follows for every state.

pub mod execute;
pub mod fault;
pub mod instruction;
pub mod laws;
pub mod layout;
pub mod machine;
pub mod semantics;
pub mod sprite;
pub mod state;

pub use crate::fault::Fault;
pub use crate::instruction::{decode, extract_instruction_parameters, Instruction};
pub use crate::layout::{SCREEN_HEIGHT, SCREEN_WIDTH};
pub use crate::machine::Emulator;
pub use crate::state::State;
