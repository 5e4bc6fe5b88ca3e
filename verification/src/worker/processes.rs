//! The processes workload: spawn short-lived child processes at a Poisson
//! arrival rate. The forking, reaping and sleeping live with the binary;
//! this module decides, per arrival, what is spawned.

use vstd::prelude::*;

#[allow(unused_imports)]
use rand::Rng;

use crate::BaseConfig;
use crate::Milli;
use crate::Workload;
use crate::WorkloadConfig;

verus! {

/// An ASCII letter or digit, the alphabet of the random stub argument.
pub open spec fn is_alnum_char(c: char) -> bool {
    ('0' as u32 <= c as u32 && c as u32 <= '9' as u32) || ('A' as u32 <= c as u32 && c as u32
        <= 'Z' as u32) || ('a' as u32 <= c as u32 && c as u32 <= 'z' as u32)
}

/// A processes worker: identity plus the arrival/departure model.
#[derive(Debug, Clone, PartialEq, Eq, Structural)]
pub struct ProcessesWorker {
    pub config: BaseConfig,
    /// How often a new process is spawned.
    pub arrival_rate: Milli,
    /// Reciprocal of the mean process lifetime.
    pub departure_rate: Milli,
    /// Spawn an external stub with a random argument instead of forking.
    pub random_process: bool,
}

/// What one arrival spawns: either the external `stub` program with a
/// fresh random argument, or a forked child that sleeps out its drawn
/// lifetime and exits.
#[derive(Debug, Clone, PartialEq, Eq)]
pub enum SpawnAction {
    RunStub { arg: String },
    ForkChild { lifetime_ms: u64 },
}

impl ProcessesWorker {
    pub fn new(workload: WorkloadConfig, cpu: u32, process: usize) -> (w: ProcessesWorker)
        requires
            workload.workload is Processes,
        ensures
            w.config == (BaseConfig { cpu_id: cpu, process_index: process }),
            workload.workload matches Workload::Processes {
                arrival_rate,
                departure_rate,
                random_process,
            } ==> w.arrival_rate == arrival_rate && w.departure_rate == departure_rate
                && w.random_process == random_process,
    {
        let config = BaseConfig { cpu_id: cpu, process_index: process };
        match workload.workload {
            Workload::Processes { arrival_rate, departure_rate, random_process } => {
                ProcessesWorker { config, arrival_rate, departure_rate, random_process }
            },
            _ => {
                ProcessesWorker {
                    config,
                    arrival_rate: Milli { thousandths: 0 },
                    departure_rate: Milli { thousandths: 0 },
                    random_process: false,
                }
            },
        }
    }

    /// Decide what this arrival spawns. With `random_process` the stub is
    /// invoked with a fresh 7-character alphanumeric argument; otherwise a
    /// child is forked to live for the drawn lifetime.
    pub fn spawn_action(&self, lifetime_ms: u64) -> (a: SpawnAction)
        ensures
            self.random_process ==> (a matches SpawnAction::RunStub { arg } && arg@.len() == 7
                && forall|i: int| 0 <= i < arg@.len() ==> is_alnum_char(#[trigger] arg@[i])),
            !self.random_process ==> a == (SpawnAction::ForkChild { lifetime_ms }),
    {
        if self.random_process {
            let arg = random_task_arg();
            SpawnAction::RunStub { arg }
        } else {
            SpawnAction::ForkChild { lifetime_ms }
        }
    }
}

/// Relies on rand's `Alphanumeric` distribution: every sampled byte is an
/// ASCII letter or digit, and `take(7)` yields exactly seven of them.
#[verifier::external_body]
fn random_task_arg() -> (s: String)
    ensures
        s@.len() == 7,
        forall|i: int| 0 <= i < s@.len() ==> is_alnum_char(#[trigger] s@[i]),
{
    rand::thread_rng().sample_iter(&rand::distributions::Alphanumeric).take(7).map(
        char::from,
    ).collect()
}

} // verus!
