//! The abstract syntax of the instruction script: arguments, the task
//! instructions a work block runs, and the machine-level instructions
//! that stand up collaborating services.

use vstd::prelude::*;

verus! {

/// An instruction argument: a literal, or a reference to a named value of
/// the module state.
#[derive(Debug, Clone, PartialEq, Eq)]
pub enum Arg {
    Const { text: String },
    Var { name: String },
}

/// One instruction of a work block.
#[derive(Debug, Clone, PartialEq, Eq)]
pub enum Instruction {
    Task { name: String, args: Vec<Arg> },
    Open { path: String },
    Debug { text: String },
}

/// One machine-level instruction, executed once at startup.
#[derive(Debug, Clone, Copy, PartialEq, Eq, Structural)]
pub enum MachineInstruction {
    Server { port: u16 },
}

} // verus!
