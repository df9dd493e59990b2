use transit_tui::lifecycle::{begin_fetch, finish_fetch, LifecycleController};
use transit_tui::store::ResultStore;

#[test]
fn cancelled_task_makes_zero_store_writes() {
    let mut controller = LifecycleController::new();
    let mut handle = controller.start();
    let mut store: ResultStore<Vec<u64>> = ResultStore::new(vec![1]);
    store.replace(vec![2]);
    let (_, version_at_cancel, _) = store.read();

    controller.stop(&mut handle);

    // However many cycles the task still attempts, the store's version is
    // unchanged for the whole interval after cancellation completed.
    for round in 0..5u64 {
        let go = begin_fetch(&mut store, &handle);
        assert!(!go);
        finish_fetch(&mut store, &handle, Some(vec![round + 10]));
        let (value, version, fetching) = store.read();
        assert_eq!(value, &vec![2]);
        assert_eq!(version, version_at_cancel);
        assert!(!fetching);
    }
}

#[test]
fn cancellation_is_idempotent() {
    let mut controller = LifecycleController::new();
    let mut handle = controller.start();
    assert!(!handle.cancelled());
    handle.cancel();
    assert!(handle.cancelled());
    handle.cancel();
    assert!(handle.cancelled());
    controller.stop(&mut handle);
    assert!(handle.cancelled());
}

#[test]
fn live_task_updates_the_store() {
    let mut controller = LifecycleController::new();
    let handle = controller.start();
    let mut store: ResultStore<Vec<u64>> = ResultStore::new(vec![]);
    assert!(begin_fetch(&mut store, &handle));
    finish_fetch(&mut store, &handle, Some(vec![42]));
    let (value, version, fetching) = store.read();
    assert_eq!(value, &vec![42]);
    assert_eq!(version, 1);
    assert!(!fetching);
}
