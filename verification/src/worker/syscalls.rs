//! The syscalls workload: issue a chosen syscall in a tight loop or at a
//! Poisson rate, counting invocations and logging the per-second
//! throughput every ten seconds. The raw syscall and the sleeping live
//! with the binary; this module carries the pacing and reporting
//! decisions.

use vstd::prelude::*;

use crate::BaseConfig;
use crate::Workload;
use crate::WorkloadConfig;

verus! {

/// A syscalls worker: identity plus the full configuration, from which
/// the payload reads its `Syscalls` parameters.
#[derive(Debug, Clone, Copy, PartialEq, Eq, Structural)]
pub struct SyscallsWorker {
    pub config: BaseConfig,
    pub workload: WorkloadConfig,
}

impl SyscallsWorker {
    pub fn new(workload: WorkloadConfig, cpu: u32, process: usize) -> (w: SyscallsWorker)
        ensures
            w.workload == workload,
            w.config == (BaseConfig { cpu_id: cpu, process_index: process }),
    {
        SyscallsWorker { config: BaseConfig { cpu_id: cpu, process_index: process }, workload }
    }

    /// Whether the loop paces itself between syscalls: a tight loop goes
    /// straight to the next invocation, otherwise the loop sleeps an
    /// exponentially drawn interval.
    pub fn use_pacing(&self) -> (pace: bool)
        requires
            self.workload.workload is Syscalls,
        ensures
            self.workload.workload matches Workload::Syscalls { tight_loop, .. } ==> pace
                == !tight_loop,
    {
        match self.workload.workload {
            Workload::Syscalls { tight_loop, .. } => !tight_loop,
            _ => false,
        }
    }
}

/// The throughput counter is reported (and restarted) once more than ten
/// seconds of wall time have accumulated.
pub fn report_due(elapsed_secs: u64) -> (due: bool)
    ensures
        due == (elapsed_secs > 10),
{
    elapsed_secs > 10
}

/// The reported figure: invocations per elapsed second.
pub fn throughput(counter: u64, elapsed_secs: u64) -> (rate: u64)
    requires
        elapsed_secs > 0,
    ensures
        rate == counter / elapsed_secs,
{
    counter / elapsed_secs
}

} // verus!
