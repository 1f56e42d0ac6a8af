//! A four-register byte machine with flat memory, a textual program format
//! with a label table, and a small in-memory file store from which a running
//! program can load and run another.
//!
//! * [`vfs`] is the file store.
//! * [`tokenizer`] turns a program text into tokens and a label table.
//! * [`machine`] is the model: the state of the machine and the meaning of
//!   every instruction, as mathematics.
//! * [`decode`] turns tokens into opcodes and operands.
//! * [`exec`] is the machine that runs: it does to its state exactly what the
//!   model says.
//! * [`laws`] proves what holds of every machine.
//! * [`text`] holds the character and number primitives underneath.

pub mod decode;
pub mod exec;
pub mod laws;
pub mod machine;
pub mod text;
pub mod tokenizer;
pub mod vfs;
