//! Machine-level instructions: services stood up once at startup so that
//! the workloads have something to talk to. The listening and replying is
//! socket I/O and lives with the binary; `apply` fixes what each
//! instruction stands up.

use vstd::prelude::*;

use crate::Ipv4Octets;
use crate::script::ast::MachineInstruction;

verus! {

#[derive(Debug, Clone, Copy, PartialEq, Eq, Structural)]
pub enum MachineError {
    Internal,
}

/// What executing one machine instruction amounts to.
#[derive(Debug, Clone, Copy, PartialEq, Eq, Structural)]
pub enum MachineAction {
    /// Bind a TCP listener on the address and port and answer every
    /// received line.
    StartServer { address: Ipv4Octets, port: u16 },
}

/// Resolve one machine instruction to the action it performs: a `Server`
/// instruction starts the line-echo server on localhost at the given
/// port.
pub fn apply(instr: MachineInstruction) -> (r: Result<MachineAction, MachineError>)
    ensures
        instr matches MachineInstruction::Server { port } ==> r == Ok::<
            MachineAction,
            MachineError,
        >(
            MachineAction::StartServer {
                address: Ipv4Octets { o0: 127, o1: 0, o2: 0, o3: 1 },
                port,
            },
        ),
{
    match instr {
        MachineInstruction::Server { port } => Ok(
            MachineAction::StartServer { address: Ipv4Octets { o0: 127, o1: 0, o2: 0, o3: 1 }, port },
        ),
    }
}

} // verus!
