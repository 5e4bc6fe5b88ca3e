//! The instruction script: its abstract syntax.

pub mod ast;
