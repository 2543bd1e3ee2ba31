//! A small register-based bytecode virtual machine.
//!
//! Programs are flat byte streams in which every instruction occupies
//! exactly four bytes: one opcode byte followed by three operand bytes.
//! The crate provides the opcode registry, the operand codec, the
//! instruction set, the fetch-decode-execute loop, and the assembler
//! that turns tokenized assembly lines into bytecode.

pub mod assembly;
pub mod instructions;
pub mod program;
pub mod repl;
pub mod shared;
pub mod vm;
