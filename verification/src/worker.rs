//! The workload-specific workers and their shared construction path.
//!
//! The supervisor constructs one worker descriptor per (core, process)
//! slot before forking; the child inherits the descriptor and runs its
//! payload in a loop. For an endpoints worker the port slice is drawn
//! here, in the parent, so that every child sees a globally consistent
//! port map.

use vstd::prelude::*;

#[allow(unused_imports)]
use rand::Rng;

use crate::BaseConfig;
use crate::Workload;
use crate::WorkloadConfig;
use crate::ports::PortAllocator;
use crate::ports::PortRange;

pub mod bpf;
pub mod endpoints;
pub mod network;
pub mod processes;
pub mod syscalls;

use bpf::BpfWorker;
use endpoints::EndpointWorker;
use network::NetworkWorker;
use processes::ProcessesWorker;
use syscalls::SyscallsWorker;

verus! {

/// A constructed worker of any workload type.
pub enum AnyWorker {
    Endpoints(EndpointWorker),
    Processes(ProcessesWorker),
    Syscalls(SyscallsWorker),
    Network(NetworkWorker),
    Bpf(BpfWorker),
}

/// The descriptor one supervisor slot produces: fully determined by the
/// configuration, the slot's core and process index, the allocator cursor
/// and (for endpoints) the drawn port count.
pub open spec fn expected_worker(
    config: WorkloadConfig,
    cpu: u32,
    process: usize,
    cursor: u16,
    draw: u16,
) -> AnyWorker {
    let base = BaseConfig { cpu_id: cpu, process_index: process };
    match config.workload {
        Workload::Endpoints { .. } => AnyWorker::Endpoints(
            EndpointWorker {
                config: base,
                restart_interval: config.restart_interval,
                ports: PortRange { start: cursor, length: draw },
            },
        ),
        Workload::Processes { arrival_rate, departure_rate, random_process } => AnyWorker::Processes(
            ProcessesWorker { config: base, arrival_rate, departure_rate, random_process },
        ),
        Workload::Syscalls { .. } => AnyWorker::Syscalls(
            SyscallsWorker { config: base, workload: config },
        ),
        Workload::Network { .. } => AnyWorker::Network(
            NetworkWorker { config: base, workload: config },
        ),
        Workload::Bpf { .. } => AnyWorker::Bpf(BpfWorker { config: base, workload: config }),
    }
}

/// Construct the worker for one (core, process) slot. For an endpoints
/// workload the slot's port slice — `draw` ports long — is reserved from
/// the allocator here, before any fork; for every other workload the
/// allocator is untouched and `draw` is ignored.
pub fn new_worker(
    workload: WorkloadConfig,
    cpu: u32,
    process: usize,
    allocator: &mut PortAllocator,
    draw: u16,
) -> (w: AnyWorker)
    requires
        workload.workload is Endpoints ==> old(allocator).cursor + draw <= 65535,
    ensures
        w == expected_worker(workload, cpu, process, old(allocator).cursor, draw),
        workload.workload is Endpoints ==> final(allocator).cursor == old(allocator).cursor
            + draw,
        !(workload.workload is Endpoints) ==> final(allocator).cursor == old(allocator).cursor,
{
    match workload.workload {
        Workload::Endpoints { .. } => {
            let slice = allocator.allocate(draw);
            let upper = slice.start + slice.length;
            AnyWorker::Endpoints(EndpointWorker::new(workload, cpu, process, slice.start, upper))
        },
        Workload::Processes { .. } => {
            AnyWorker::Processes(ProcessesWorker::new(workload, cpu, process))
        },
        Workload::Syscalls { .. } => {
            AnyWorker::Syscalls(SyscallsWorker::new(workload, cpu, process))
        },
        Workload::Network { .. } => {
            AnyWorker::Network(NetworkWorker::new(workload, cpu, process))
        },
        Workload::Bpf { .. } => { AnyWorker::Bpf(BpfWorker::new(workload, cpu, process)) },
    }
}

/// Draw the port count for a uniform endpoints distribution: a sample
/// from `[lower, upper)`.
pub fn sample_uniform_ports(lower: u64, upper: u64) -> (n: u64)
    requires
        lower < upper,
    ensures
        lower <= n < upper,
{
    sample_uniform(lower, upper)
}

/// Relies on rand_distr's integer `Uniform` sampler: the sample lies in
/// the half-open range `[lower, upper)`; construction panics on an empty
/// range, which the precondition rules out.
#[verifier::external_body]
fn sample_uniform(lower: u64, upper: u64) -> (n: u64)
    requires
        lower < upper,
    ensures
        lower <= n < upper,
{
    rand::thread_rng().sample(rand_distr::Uniform::new(lower, upper))
}

} // verus!
