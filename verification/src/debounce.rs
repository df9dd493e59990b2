//! Debounced search engine. Keystrokes set a single-slot dirty flag
//! (multiple edits before the task wakes coalesce into one); the background
//! task dispatches at most one search per cooldown window, always with the
//! input text exactly as it stands at dispatch time.
//!
//! The engine keeps a ghost history of its dispatches — (time, query text)
//! pairs — so the rate bound and the freshness of the dispatched text are
//! part of its invariant, not just of one method's contract.

use vstd::prelude::*;

verus! {

/// Debounce state: dirty flag, cooldown length, the earliest time the next
/// dispatch may happen, and the ghost history of past dispatches.
pub struct DebounceEngine {
    cooldown: u64,
    dirty: bool,
    ready_at: u64,
    history: Ghost<Seq<(u64, Seq<char>)>>,
}

impl DebounceEngine {
    /// The fixed cooldown between dispatches, in time units.
    pub closed spec fn spec_cooldown(&self) -> u64 {
        self.cooldown
    }

    /// Whether an edit signal is pending.
    pub closed spec fn spec_dirty(&self) -> bool {
        self.dirty
    }

    /// The earliest time the next dispatch may happen.
    pub closed spec fn spec_ready_at(&self) -> u64 {
        self.ready_at
    }

    /// All dispatches so far: (dispatch time, query text), oldest first.
    pub closed spec fn spec_history(&self) -> Seq<(u64, Seq<char>)> {
        self.history@
    }

    /// Consecutive dispatches are at least one cooldown apart, and the next
    /// dispatch cannot come sooner than one cooldown after the last.
    pub open spec fn wf(&self) -> bool {
        &&& forall|i: int, j: int|
            0 <= i && j == i + 1 && j < self.spec_history().len() ==> (#[trigger] self.spec_history()[i]).0
                + self.spec_cooldown() <= (#[trigger] self.spec_history()[j]).0
        &&& self.spec_history().len() > 0 ==> self.spec_history().last().0 + self.spec_cooldown()
            <= self.spec_ready_at()
    }

    /// A fresh engine: nothing pending, nothing dispatched, first dispatch
    /// allowed immediately.
    pub fn new(cooldown: u64) -> (e: Self)
        ensures
            e.wf(),
            e.spec_cooldown() == cooldown,
            !e.spec_dirty(),
            e.spec_ready_at() == 0,
            e.spec_history() == Seq::<(u64, Seq<char>)>::empty(),
    {
        let ghost h0: Seq<(u64, Seq<char>)> = Seq::empty();
        DebounceEngine { cooldown, dirty: false, ready_at: 0, history: Ghost(h0) }
    }

    /// Record an edit. Coalescing is inherent: signalling an already-dirty
    /// engine changes nothing, so any burst of edits before the next
    /// dispatch is one pending wake-up.
    pub fn signal(&mut self)
        ensures
            final(self).spec_dirty(),
            final(self).spec_cooldown() == old(self).spec_cooldown(),
            final(self).spec_ready_at() == old(self).spec_ready_at(),
            final(self).spec_history() == old(self).spec_history(),
            old(self).wf() ==> final(self).wf(),
    {
        self.dirty = true;
    }

    /// One wake-up of the background task at time `now`, reading the input
    /// buffer as it currently stands. Dispatches exactly when an edit is
    /// pending and the cooldown since the previous dispatch has elapsed;
    /// a dispatch consumes the dirty flag, closes the window for one more
    /// cooldown, and goes on record with the current text.
    pub fn try_dispatch(&mut self, now: u64, text: &String) -> (dispatch: bool)
        requires
            old(self).wf(),
            now + old(self).spec_cooldown() <= u64::MAX,
        ensures
            final(self).wf(),
            final(self).spec_cooldown() == old(self).spec_cooldown(),
            dispatch == (old(self).spec_dirty() && now >= old(self).spec_ready_at()),
            dispatch ==> !final(self).spec_dirty()
                && final(self).spec_ready_at() == now + old(self).spec_cooldown()
                && final(self).spec_history() == old(self).spec_history().push((now, text@)),
            !dispatch ==> final(self).spec_dirty() == old(self).spec_dirty()
                && final(self).spec_ready_at() == old(self).spec_ready_at()
                && final(self).spec_history() == old(self).spec_history(),
    {
        if self.dirty && now >= self.ready_at {
            self.dirty = false;
            self.ready_at = now + self.cooldown;
            let ghost h = self.history@.push((now, text@));
            self.history = Ghost(h);
            proof {
                let hist = self.history@;
                assert forall|i: int, j: int|
                    0 <= i && j == i + 1 && j < hist.len() implies (#[trigger] hist[i]).0
                    + self.cooldown <= (#[trigger] hist[j]).0 by {
                    if j < hist.len() - 1 {
                        assert(hist[i] == old(self).spec_history()[i]);
                        assert(hist[j] == old(self).spec_history()[j]);
                    } else {
                        assert(hist[i] == old(self).spec_history().last());
                    }
                }
            }
            true
        } else {
            false
        }
    }
}

/// Law: the engine issues at most one fetch per cooldown period — any two
/// consecutive dispatches on record are at least one cooldown apart. The
/// text of each dispatch is the input buffer at dispatch time by the
/// contract of `try_dispatch`, which records exactly the text it was handed.
pub proof fn lemma_dispatch_rate(e: &DebounceEngine)
    requires
        e.wf(),
    ensures
        forall|i: int, j: int|
            0 <= i && j == i + 1 && j < e.spec_history().len() ==> (#[trigger] e.spec_history()[i]).0
                + e.spec_cooldown() <= (#[trigger] e.spec_history()[j]).0,
{
}

/// Law, globally: between any earlier dispatch `i` and later dispatch `j`
/// at least `j - i` whole cooldown periods pass, so no window of one
/// cooldown ever holds two dispatches.
pub proof fn lemma_dispatch_rate_global(e: &DebounceEngine, i: int, j: int)
    requires
        e.wf(),
        0 <= i <= j < e.spec_history().len(),
    ensures
        e.spec_history()[i].0 + (j - i) * e.spec_cooldown() <= e.spec_history()[j].0,
    decreases j - i,
{
    if j > i {
        lemma_dispatch_rate_global(e, i, j - 1);
        assert(e.spec_history()[j - 1].0 + e.spec_cooldown() <= e.spec_history()[j].0);
        assert((j - 1 - i) * e.spec_cooldown() + e.spec_cooldown() == (j - i) * e.spec_cooldown())
            by (nonlinear_arith);
        assert(e.spec_history()[i].0 + (j - i) * e.spec_cooldown() <= e.spec_history()[j].0);
    } else {
        assert((j - i) * e.spec_cooldown() == 0) by (nonlinear_arith)
            requires
                i == j,
        ;
    }
}

} // verus!
