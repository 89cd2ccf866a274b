//! A small register-and-stack virtual machine: a decoder from a tagged byte
//! format to typed instructions, and an engine that executes them.

pub mod arith;
pub mod bytecode;
pub mod laws;
pub mod value;
pub mod vm;
