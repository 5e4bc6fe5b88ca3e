//! Supervisor tests: fork bookkeeping, the reap list, the watchdog gate
//! and the wait-failure taxonomy.

use berserker::supervisor::{
    should_terminate, target_cores, wait_failure_is_fatal, watchdog_enabled, Supervisor,
    WaitOutcome,
};

#[test]
fn test_children_track_forks() {
    // One entry per fork attempt; the reap list holds exactly the pids
    // of the successful forks, in order, each once.
    let mut supervisor = Supervisor::new();
    supervisor.record_fork(Some(100));
    supervisor.record_fork(None); // a failed fork leaves an absent slot
    supervisor.record_fork(Some(102));
    supervisor.record_fork(Some(103));

    assert_eq!(supervisor.children.len(), 4);
    assert_eq!(supervisor.reap_targets(), vec![100, 102, 103]);
}

#[test]
fn test_reap_targets_of_no_children() {
    let supervisor = Supervisor::new();
    assert_eq!(supervisor.reap_targets(), Vec::<i32>::new());
}

#[test]
fn test_watchdog_gate() {
    // duration = 0 means unbounded: the watchdog thread is not started.
    assert!(!watchdog_enabled(0));
    assert!(watchdog_enabled(2));
}

#[test]
fn test_duration_gate_fires_after_budget() {
    // With duration = 2 the children are terminated once the elapsed
    // time passes the budget.
    assert!(!should_terminate(1, 2));
    assert!(!should_terminate(2, 2));
    assert!(should_terminate(3, 2));
}

#[test]
fn test_wait_failure_taxonomy() {
    assert!(!wait_failure_is_fatal(&WaitOutcome::Reaped));
    assert!(!wait_failure_is_fatal(&WaitOutcome::NoSuchChild));
    assert!(wait_failure_is_fatal(&WaitOutcome::Failed));
}

#[test]
fn test_per_core_mode_enumerates_cores() {
    // In per-core mode the online cores are enumerated; on any machine
    // running this test there is at least one.
    let cores = target_cores(true).expect("core enumeration failed");
    assert!(!cores.is_empty());
}
