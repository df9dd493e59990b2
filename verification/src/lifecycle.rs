//! Task lifecycle: a cancellable handle bound to one background task, a
//! controller that issues exactly one handle per view, and the store-update
//! steps of one fetch cycle. The steps are written against the handle so
//! that the central cancellation law is part of their contracts: once the
//! handle is cancelled, a cycle writes nothing to the store at all.

use vstd::prelude::*;
use crate::store::ResultStore;

verus! {

/// Cancellable reference to one running background task. Cancellation is
/// idempotent and never un-done.
pub struct TaskHandle {
    cancelled: bool,
}

impl TaskHandle {
    /// Whether cancellation has been requested.
    pub closed spec fn is_cancelled(&self) -> bool {
        self.cancelled
    }

    /// Whether cancellation has been requested.
    pub fn cancelled(&self) -> (r: bool)
        ensures
            r == self.is_cancelled(),
    {
        self.cancelled
    }

    /// Request cancellation. Idempotent: cancelling twice is the same as
    /// cancelling once, and a cancelled handle never becomes live again.
    pub fn cancel(&mut self)
        ensures
            final(self).is_cancelled(),
    {
        self.cancelled = true;
    }
}

/// Owns the lifecycle of one view's background task: hands out exactly one
/// handle when the view starts, and cancels it when the view exits.
pub struct LifecycleController {
    issued: bool,
}

impl LifecycleController {
    /// Whether `start` has already been called.
    pub closed spec fn spec_issued(&self) -> bool {
        self.issued
    }

    /// A controller that has not started its task yet.
    pub fn new() -> (c: Self)
        ensures
            !c.spec_issued(),
    {
        LifecycleController { issued: false }
    }

    /// Begin the view's background task: yields the one live handle this
    /// controller will ever issue.
    pub fn start(&mut self) -> (h: TaskHandle)
        requires
            !old(self).spec_issued(),
        ensures
            final(self).spec_issued(),
            !h.is_cancelled(),
    {
        self.issued = true;
        TaskHandle { cancelled: false }
    }

    /// End the view: request cancellation of the task behind the handle.
    pub fn stop(&self, h: &mut TaskHandle)
        ensures
            final(h).is_cancelled(),
    {
        h.cancel();
    }
}

/// First half of one fetch cycle. A live task marks the store as fetching
/// and goes on to issue the request; a cancelled task touches nothing and
/// reports that the cycle must not run.
pub fn begin_fetch<T>(store: &mut ResultStore<T>, handle: &TaskHandle) -> (go: bool)
    ensures
        handle.is_cancelled() ==> !go && *final(store) == *old(store),
        !handle.is_cancelled() ==> go
            && final(store).spec_value() == old(store).spec_value()
            && final(store).spec_version() == old(store).spec_version()
            && final(store).spec_fetching(),
{
    if handle.cancelled() {
        false
    } else {
        store.set_fetching(true);
        true
    }
}

/// Second half of one fetch cycle, given the outcome of the request:
/// `Some` is the fetched value, `None` a transient failure. A cancelled
/// task writes nothing. A live task installs a successful result wholesale
/// (bumping the version), keeps the previous value on failure, and returns
/// the store to idle either way.
pub fn finish_fetch<T>(store: &mut ResultStore<T>, handle: &TaskHandle, fetched: Option<T>)
    requires
        old(store).spec_version() < u64::MAX,
    ensures
        handle.is_cancelled() ==> *final(store) == *old(store),
        !handle.is_cancelled() ==> !final(store).spec_fetching(),
        !handle.is_cancelled() && fetched is Some ==> final(store).spec_value()
            == fetched.unwrap() && final(store).spec_version() == old(store).spec_version() + 1,
        !handle.is_cancelled() && fetched is None ==> final(store).spec_value()
            == old(store).spec_value() && final(store).spec_version() == old(
            store,
        ).spec_version(),
{
    if !handle.cancelled() {
        match fetched {
            Some(v) => store.replace(v),
            None => (),
        }
        store.set_fetching(false);
    }
}

/// Law: a fetch cycle run under a cancelled handle makes zero store writes.
/// `begin_fetch` and `finish_fetch` each leave a cancelled task's store
/// exactly as it was, so over any run of such cycles the version counter
/// never moves.
pub proof fn lemma_cancelled_cycle_writes_nothing<T>(
    before: ResultStore<T>,
    after_begin: ResultStore<T>,
    after_finish: ResultStore<T>,
    handle: TaskHandle,
)
    requires
        handle.is_cancelled(),
        after_begin == before,
        after_finish == after_begin,
    ensures
        after_finish == before,
        after_finish.spec_version() == before.spec_version(),
{
}

} // verus!
