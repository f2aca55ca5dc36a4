//! A small compiler backend: it lowers a three-address intermediate
//! representation into a register-and-immediate target instruction set and
//! serializes the result as assembly text.
//!
//! The pipeline is a linear chain: an IR [`program::Program`] of
//! [`lir::Node`]s plus a finished [`compile::CompilationContext`] are lowered
//! by [`compile::compile_lir_program`] into a target program of
//! [`target::Instruction`]s, which [`output::render_program`] turns into the
//! final text. Every step is a pure function of its inputs.

pub mod compile;
pub mod error;
pub mod lir;
pub mod output;
pub mod program;
pub mod target;
