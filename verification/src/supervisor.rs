//! The supervisor: enumerate the target CPU cores, construct one worker
//! descriptor per (core, process) slot — drawing endpoints port slices
//! before any fork — and keep the books on the forked children so that a
//! watchdog can terminate them and a reaper waits for each exactly once.
//! The forking, signalling and waiting themselves live with the binary.

use vstd::prelude::*;

use crate::WorkloadConfig;
use crate::ports::PortAllocator;
use crate::ports::draws_total;
use crate::ports::lemma_slices_partition;
use crate::ports::lemma_total_nonneg;
use crate::ports::lemma_total_take_succ;
use crate::ports::slice_start;
use crate::worker::AnyWorker;
use crate::worker::expected_worker;
use crate::worker::new_worker;

verus! {

/// Relies on core_affinity::get_core_ids: it enumerates the ids of the
/// machine's online CPU cores. The result depends on the machine, so
/// nothing is promised of it.
#[verifier::external_body]
fn query_core_ids() -> (r: Option<Vec<u32>>) {
    core_affinity::get_core_ids().map(|v| v.into_iter().map(|c| c.id as u32).collect())
}

/// The cores the run fans out over: every online core in per-core mode
/// (`None` when the enumeration fails), and exactly core 0 otherwise.
pub fn target_cores(per_core: bool) -> (cores: Option<Vec<u32>>)
    ensures
        !per_core ==> (cores matches Some(v) && v@ == seq![0u32]),
{
    if per_core {
        query_core_ids()
    } else {
        let mut v: Vec<u32> = Vec::new();
        v.push(0);
        assert(v@ =~= seq![0u32]);
        Some(v)
    }
}

/// Construct the worker descriptors for the whole run: one per element of
/// the Cartesian product of `cores` and `0..workers`, in iteration order
/// (all process indices of a core before the next core). Slot `k` serves
/// core `cores[k / workers]` as process `k % workers`. For an endpoints
/// workload, slot `k` receives the contiguous port slice that begins past
/// the slices of all earlier slots — `draws` holds one port count per
/// slot — so the slices are disjoint and monotone across the run.
pub fn plan_workers(
    config: &WorkloadConfig,
    cores: &Vec<u32>,
    draws: &Vec<u16>,
    allocator: &mut PortAllocator,
) -> (plan: Vec<AnyWorker>)
    requires
        config.workers >= 1,
        cores@.len() * config.workers <= usize::MAX,
        draws@.len() == cores@.len() * config.workers,
        config.workload is Endpoints ==> old(allocator).cursor + draws_total(
            draws@.map_values(|d: u16| d as int),
        ) <= 65535,
    ensures
        plan@.len() == cores@.len() * config.workers,
        forall|k: int|
            0 <= k < plan@.len() ==> #[trigger] plan@[k] == expected_worker(
                *config,
                cores@[k / config.workers as int],
                (k % config.workers as int) as usize,
                slice_start(
                    old(allocator).cursor as int,
                    draws@.map_values(|d: u16| d as int),
                    k,
                ) as u16,
                draws@[k],
            ),
        config.workload is Endpoints ==> final(allocator).cursor == old(allocator).cursor
            + draws_total(draws@.map_values(|d: u16| d as int)),
        !(config.workload is Endpoints) ==> final(allocator).cursor == old(allocator).cursor,
{
    let ghost base = old(allocator).cursor as int;
    let ghost dints = draws@.map_values(|d: u16| d as int);
    proof {
        assert(forall|k: int| 0 <= k < dints.len() ==> #[trigger] dints[k] >= 0);
    }
    let total: usize = cores.len() * config.workers;
    let mut plan: Vec<AnyWorker> = Vec::new();
    let mut k: usize = 0;
    while k < total
        invariant
            config.workers >= 1,
            total == cores@.len() * config.workers,
            draws@.len() == total,
            0 <= k <= total,
            plan@.len() == k,
            dints == draws@.map_values(|d: u16| d as int),
            base == old(allocator).cursor,
            forall|j: int| 0 <= j < dints.len() ==> #[trigger] dints[j] >= 0,
            config.workload is Endpoints ==> allocator.cursor == slice_start(
                base,
                dints,
                k as int,
            ) && base + draws_total(dints) <= 65535,
            !(config.workload is Endpoints) ==> allocator.cursor == base,
            forall|j: int|
                0 <= j < k ==> #[trigger] plan@[j] == expected_worker(
                    *config,
                    cores@[j / config.workers as int],
                    (j % config.workers as int) as usize,
                    slice_start(base, dints, j) as u16,
                    draws@[j],
                ),
        decreases total - k,
    {
        proof {
            assert(cores@.len() as int * config.workers as int == config.workers as int
                * cores@.len() as int) by (nonlinear_arith);
            vstd::arithmetic::div_mod::lemma_multiply_divide_lt(
                k as int,
                config.workers as int,
                cores@.len() as int,
            );
            vstd::arithmetic::div_mod::lemma_mod_bound(k as int, config.workers as int);
            if config.workload is Endpoints {
                lemma_total_nonneg(dints.take(k as int));
                lemma_slices_partition(dints, base, k as int, dints.len() as int);
                assert(dints.take(dints.len() as int) =~= dints);
                assert(slice_start(base, dints, k as int) + dints[k as int] <= base
                    + draws_total(dints));
            }
        }
        let cpu = cores[k / config.workers];
        let process = k % config.workers;
        let draw = draws[k];
        let ghost cursor_before = allocator.cursor;
        let w = new_worker(*config, cpu, process, allocator, draw);
        plan.push(w);
        proof {
            if config.workload is Endpoints {
                lemma_total_take_succ(dints, k as int);
            }
            assert(plan@[k as int] == expected_worker(
                *config,
                cores@[k as int / config.workers as int],
                (k as int % config.workers as int) as usize,
                slice_start(base, dints, k as int) as u16,
                draws@[k as int],
            ));
        }
        k = k + 1;
    }
    proof {
        if config.workload is Endpoints {
            assert(dints.take(dints.len() as int) =~= dints);
        }
    }
    plan
}

/// The pids of the successful forks among the recorded outcomes, in
/// recording order: one entry per `Some`, none for a failed slot.
pub open spec fn fork_pids(s: Seq<Option<i32>>) -> Seq<i32>
    decreases s.len(),
{
    if s.len() == 0 {
        Seq::empty()
    } else {
        let rest = fork_pids(s.drop_last());
        match s.last() {
            Some(p) => rest.push(p),
            None => rest,
        }
    }
}

/// How many of the recorded fork outcomes were successful.
pub open spec fn count_some(s: Seq<Option<i32>>) -> int
    decreases s.len(),
{
    if s.len() == 0 {
        0
    } else {
        count_some(s.drop_last()) + if s.last() is Some {
            1int
        } else {
            0int
        }
    }
}

/// The reap list carries one pid per successful fork: its length is the
/// number of successful forks among the recorded outcomes.
pub proof fn lemma_one_reap_per_fork(s: Seq<Option<i32>>)
    ensures
        fork_pids(s).len() == count_some(s),
    decreases s.len(),
{
    if s.len() > 0 {
        lemma_one_reap_per_fork(s.drop_last());
    }
}

/// Recording a successful fork adds exactly its pid to the reap list;
/// recording a failed fork adds nothing. Together with
/// [`Supervisor::reap_targets`] this pins down that every successful fork
/// is waited on exactly once when the reaper walks the list once.
pub proof fn lemma_fork_pids_push(s: Seq<Option<i32>>, outcome: Option<i32>)
    ensures
        outcome matches Some(p) ==> fork_pids(s.push(outcome)) == fork_pids(s).push(p),
        outcome is None ==> fork_pids(s.push(outcome)) == fork_pids(s),
{
    assert(s.push(outcome).drop_last() =~= s);
}

/// The parent's book of forked children. Every fork attempt records an
/// outcome — the child pid, or `None` for a failed slot, which is skipped
/// and not retried.
pub struct Supervisor {
    pub children: Vec<Option<i32>>,
}

impl Supervisor {
    pub fn new() -> (s: Supervisor)
        ensures
            s.children@.len() == 0,
    {
        Supervisor { children: Vec::new() }
    }

    /// Record one fork attempt: the children list grows by exactly this
    /// outcome, so its length equals the number of attempts and the
    /// number of its `Some` entries equals the number of successful forks.
    pub fn record_fork(&mut self, outcome: Option<i32>)
        ensures
            final(self).children@ == old(self).children@.push(outcome),
    {
        self.children.push(outcome);
    }

    /// The pids the reaper waits on: the successful forks, in order, each
    /// exactly once.
    pub fn reap_targets(&self) -> (pids: Vec<i32>)
        ensures
            pids@ == fork_pids(self.children@),
    {
        let mut pids: Vec<i32> = Vec::new();
        let mut i: usize = 0;
        while i < self.children.len()
            invariant
                0 <= i <= self.children@.len(),
                pids@ == fork_pids(self.children@.take(i as int)),
            decreases self.children@.len() - i,
        {
            proof {
                assert(self.children@.take(i as int + 1).drop_last() =~= self.children@.take(
                    i as int,
                ));
                assert(self.children@.take(i as int + 1).last() == self.children@[i as int]);
            }
            match self.children[i] {
                Some(pid) => {
                    pids.push(pid);
                },
                None => {},
            }
            i = i + 1;
        }
        proof {
            assert(self.children@.take(self.children@.len() as int) =~= self.children@);
        }
        pids
    }
}

/// The watchdog thread exists only for a bounded run: a zero duration
/// means no limit, and the process runs until signalled from outside.
pub fn watchdog_enabled(duration: u64) -> (enabled: bool)
    ensures
        enabled == (duration != 0),
{
    duration != 0
}

/// Once more wall time than the configured duration has elapsed, the
/// watchdog terminates every recorded child and exits.
pub fn should_terminate(elapsed_secs: u64, duration: u64) -> (terminate: bool)
    ensures
        terminate == (elapsed_secs > duration),
{
    elapsed_secs > duration
}

/// What waiting on one child produced, as the reaper sees it.
#[derive(Debug, Clone, Copy, PartialEq, Eq, Structural)]
pub enum WaitOutcome {
    /// The child was reaped.
    Reaped,
    /// No such child existed any more; tolerated as non-fatal.
    NoSuchChild,
    /// Any other wait failure.
    Failed,
}

/// The reaper tolerates a child that is already gone; every other wait
/// failure is fatal to the run.
pub fn wait_failure_is_fatal(outcome: &WaitOutcome) -> (fatal: bool)
    ensures
        fatal == (outcome is Failed),
{
    match outcome {
        WaitOutcome::Failed => true,
        _ => false,
    }
}

} // verus!
