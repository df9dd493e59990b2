use transit_tui::lifecycle::{begin_fetch, finish_fetch, LifecycleController};
use transit_tui::poll::{PollEngine, PollPhase};
use transit_tui::store::ResultStore;

#[test]
fn poll_engine_fetches_immediately_on_start() {
    let engine = PollEngine::new(60, 0);
    assert_eq!(engine.phase(), PollPhase::Fetching);
    assert_eq!(engine.fetch_count(), 1);
}

#[test]
fn poll_cycles_run_at_the_fixed_interval() {
    // Scenario: started at t=0 with interval 60, fetch cycles start at
    // t=0, t=60, t=120.
    let mut engine = PollEngine::new(60, 0);
    assert_eq!(engine.fetch_count(), 1);

    engine.complete(0);
    assert_eq!(engine.phase(), PollPhase::Sleeping);
    assert_eq!(engine.wake_at(), 60);

    engine.wake(60);
    assert_eq!(engine.phase(), PollPhase::Fetching);
    assert_eq!(engine.fetch_count(), 2);

    engine.complete(60);
    assert_eq!(engine.wake_at(), 120);

    engine.wake(120);
    assert_eq!(engine.fetch_count(), 3);
}

#[test]
fn processing_time_delays_the_next_wake() {
    let mut engine = PollEngine::new(60, 0);
    // The request took 5 units; the sleep starts after it resolves.
    engine.complete(5);
    assert_eq!(engine.wake_at(), 65);
}

#[test]
fn each_successful_cycle_replaces_the_store() {
    let mut controller = LifecycleController::new();
    let handle = controller.start();
    let mut engine = PollEngine::new(60, 0);
    let mut store: ResultStore<Vec<u64>> = ResultStore::new(vec![]);

    let mut now = 0u64;
    for round in 1..=3u64 {
        assert!(begin_fetch(&mut store, &handle));
        let (_, _, fetching) = store.read();
        assert!(fetching);
        finish_fetch(&mut store, &handle, Some(vec![round]));
        let (value, version, fetching) = store.read();
        assert_eq!(value, &vec![round]);
        assert_eq!(version, round);
        assert!(!fetching);
        engine.complete(now);
        now = engine.wake_at();
        if round < 3 {
            engine.wake(now);
        }
    }
    assert_eq!(engine.fetch_count(), 3);
    assert_eq!(engine.last_fetch(), 120);
}

#[test]
fn failed_cycle_keeps_previous_results_and_goes_idle() {
    let mut controller = LifecycleController::new();
    let handle = controller.start();
    let mut store: ResultStore<Vec<u64>> = ResultStore::new(vec![9]);
    assert!(begin_fetch(&mut store, &handle));
    // Transient fetch failure: the cycle's update is suppressed.
    finish_fetch(&mut store, &handle, None);
    let (value, version, fetching) = store.read();
    assert_eq!(value, &vec![9]);
    assert_eq!(version, 0);
    assert!(!fetching);
}
