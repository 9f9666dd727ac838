//! An instruction-set simulator for a 16-bit, word-addressed teaching
//! computer: eight general registers, a program counter, a flags register
//! and 65536 words of memory.
//!
//! - [`decode`] extracts the fields of an instruction word.
//! - [`registers`] lays out the register file and the condition flags.
//! - [`dispatch`] holds the table of operations and the table of trap
//!   services.
//! - [`text`] writes a word in decimal and reads one from a line.
//! - [`model`] is the machine as a mathematical value, with the meaning of
//!   every instruction, every trap service and the execution loop.
//! - [`machine`] is the executable machine. The machine never touches a
//!   console: a step that needs one returns an [`machine::Event`] that says
//!   what to write or to read, and what was read is handed back in.
//! - [`laws`] states what holds of every state and every instruction.

pub mod decode;
pub mod dispatch;
pub mod laws;
pub mod machine;
pub mod model;
pub mod registers;
pub mod text;
