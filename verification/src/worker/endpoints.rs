//! The endpoints workload: hold a slice of listening TCP ports for
//! `restart_interval` seconds, then release and reacquire them. The
//! listener sockets and the helper threads that hold them live with the
//! binary; this module fixes which ports are bound.

use vstd::prelude::*;

use crate::BaseConfig;
use crate::WorkloadConfig;
use crate::ports::PortRange;

verus! {

/// An endpoints worker: identity, restart cadence and the port slice the
/// supervisor allocated for it.
#[derive(Debug, Clone, Copy, PartialEq, Eq, Structural)]
pub struct EndpointWorker {
    pub config: BaseConfig,
    pub restart_interval: u64,
    pub ports: PortRange,
}

impl EndpointWorker {
    /// Build a worker owning the ports `[lower, upper)`.
    pub fn new(workload: WorkloadConfig, cpu: u32, process: usize, lower: u16, upper: u16) -> (w:
        EndpointWorker)
        requires
            lower <= upper,
        ensures
            w.config == (BaseConfig { cpu_id: cpu, process_index: process }),
            w.restart_interval == workload.restart_interval,
            w.ports.start == lower,
            w.ports.length == upper - lower,
    {
        let ports = PortRange::new(lower, upper - lower);
        EndpointWorker {
            config: BaseConfig { cpu_id: cpu, process_index: process },
            restart_interval: workload.restart_interval,
            ports,
        }
    }

    pub fn size(&self) -> (n: u16)
        ensures
            n == self.ports.length,
    {
        self.ports.length
    }

    /// The ports one payload run binds, in order: every port of the slice,
    /// each held by its own listener for `restart_interval` seconds. An
    /// empty slice yields no listeners, and the payload run is a no-op
    /// that still participates in restart timing.
    pub fn listen_ports(&self) -> (v: Vec<u16>)
        requires
            self.ports.start + self.ports.length <= 65535,
        ensures
            v@.len() == self.ports.length,
            forall|i: int| 0 <= i < v@.len() ==> v@[i] == self.ports.start + i,
    {
        let mut v: Vec<u16> = Vec::new();
        let mut i: u16 = 0;
        while i < self.ports.length
            invariant
                0 <= i <= self.ports.length,
                self.ports.start + self.ports.length <= 65535,
                v@.len() == i,
                forall|k: int| 0 <= k < v@.len() ==> v@[k] == self.ports.start + k,
            decreases self.ports.length - i,
        {
            v.push(self.ports.start + i);
            i = i + 1;
        }
        v
    }
}

} // verus!
