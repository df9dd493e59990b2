//! Shared result store: the single mutable cell that crosses the concurrency
//! boundary. It holds the latest fetched value, a monotonically increasing
//! version counter, and an idle/fetching status flag. Background tasks
//! replace the value wholesale; the render loop reads a snapshot every frame.
//!
//! This type models the cell itself; callers that share it across tasks wrap
//! it in a lock, which makes each method call atomic. A reader therefore sees
//! either the old value or the new one, never a mix: `read` returns exactly
//! the stored value, version and status.

use vstd::prelude::*;

verus! {

/// Latest fetched result plus version counter and fetch status.
pub struct ResultStore<T> {
    value: T,
    version: u64,
    fetching: bool,
}

impl<T> ResultStore<T> {
    /// The value most recently installed by `replace` (or the initial one).
    pub closed spec fn spec_value(&self) -> T {
        self.value
    }

    /// Monotonic counter: bumped by exactly one on every `replace`.
    pub closed spec fn spec_version(&self) -> u64 {
        self.version
    }

    /// True while the owning task has a request in flight.
    pub closed spec fn spec_fetching(&self) -> bool {
        self.fetching
    }

    /// A fresh store: version zero, idle, holding the given initial value.
    pub fn new(initial: T) -> (s: Self)
        ensures
            s.spec_value() == initial,
            s.spec_version() == 0,
            !s.spec_fetching(),
    {
        ResultStore { value: initial, version: 0, fetching: false }
    }

    /// Snapshot of the cell: the stored value, its version and the status,
    /// exactly as they stand. Never blocks and never observes a partial
    /// value: the result is determined by the store's current state alone.
    pub fn read(&self) -> (r: (&T, u64, bool))
        ensures
            *r.0 == self.spec_value(),
            r.1 == self.spec_version(),
            r.2 == self.spec_fetching(),
    {
        (&self.value, self.version, self.fetching)
    }

    /// Install a new value wholesale and bump the version by one.
    /// The status flag is left as it was.
    pub fn replace(&mut self, v: T)
        requires
            old(self).spec_version() < u64::MAX,
        ensures
            final(self).spec_value() == v,
            final(self).spec_version() == old(self).spec_version() + 1,
            final(self).spec_fetching() == old(self).spec_fetching(),
    {
        self.value = v;
        self.version = self.version + 1;
    }

    /// Set the idle/fetching flag; value and version are untouched.
    pub fn set_fetching(&mut self, b: bool)
        ensures
            final(self).spec_value() == old(self).spec_value(),
            final(self).spec_version() == old(self).spec_version(),
            final(self).spec_fetching() == b,
    {
        self.fetching = b;
    }
}

/// After a `replace`, the very next `read` returns the new value and a
/// version strictly greater than the version any earlier read returned:
/// earlier reads saw at most the pre-replace version, and `replace` bumps it.
pub proof fn lemma_replace_visible<T>(
    pre: ResultStore<T>,
    post: ResultStore<T>,
    v: T,
    prior_read_version: u64,
)
    requires
        post.spec_value() == v,
        post.spec_version() == pre.spec_version() + 1,
        prior_read_version <= pre.spec_version(),
    ensures
        post.spec_value() == v,
        post.spec_version() > prior_read_version,
{
}

} // verus!
