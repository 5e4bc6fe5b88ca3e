//! The BPF workload: load a number of tiny BPF programs, attach each to a
//! tracepoint through a perf event, and park until the process is
//! signalled. The program bytes, the `bpf` and `perf_event_open` syscalls
//! and the parking are kernel-facing and live with the binary; this
//! module fixes how many programs a run attaches.

use vstd::prelude::*;

use crate::BaseConfig;
use crate::Workload;
use crate::WorkloadConfig;

verus! {

/// A BPF worker: identity plus the full configuration, from which the
/// payload reads its `Bpf` parameters.
#[derive(Debug, Clone, Copy, PartialEq, Eq, Structural)]
pub struct BpfWorker {
    pub config: BaseConfig,
    pub workload: WorkloadConfig,
}

impl BpfWorker {
    pub fn new(workload: WorkloadConfig, cpu: u32, process: usize) -> (w: BpfWorker)
        ensures
            w.workload == workload,
            w.config == (BaseConfig { cpu_id: cpu, process_index: process }),
    {
        BpfWorker { config: BaseConfig { cpu_id: cpu, process_index: process }, workload }
    }

    /// How many programs one payload run loads and attaches, each under a
    /// distinct name carrying its index.
    pub fn prog_count(&self) -> (n: u64)
        requires
            self.workload.workload is Bpf,
        ensures
            self.workload.workload matches Workload::Bpf { nprogs, .. } ==> n == nprogs,
    {
        match self.workload.workload {
            Workload::Bpf { nprogs, .. } => nprogs,
            _ => 0,
        }
    }
}

} // verus!
