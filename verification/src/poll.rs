//! Periodic poll engine. The background task fetches immediately on start,
//! sleeps a fixed interval after each completed cycle, and repeats until
//! cancelled; there is no backoff and no retry limit. The engine keeps a
//! ghost history of fetch start times, so the pacing — consecutive fetches
//! at least one interval apart — is an invariant of the state itself.

use vstd::prelude::*;

verus! {

/// Where the poll task stands: issuing a fetch, or sleeping until the next.
#[derive(Clone, Copy, PartialEq, Eq, Structural, Debug)]
pub enum PollPhase {
    Fetching,
    Sleeping,
}

/// Poll state: fixed interval, current phase, wake-up deadline while
/// sleeping, and the record of fetch cycle start times.
pub struct PollEngine {
    interval: u64,
    phase: PollPhase,
    wake_at: u64,
    last_fetch: u64,
    fetch_count: u64,
    fetches: Ghost<Seq<u64>>,
}

impl PollEngine {
    /// The fixed sleep interval between cycles, in time units.
    pub closed spec fn spec_interval(&self) -> u64 {
        self.interval
    }

    /// The current phase.
    pub closed spec fn spec_phase(&self) -> PollPhase {
        self.phase
    }

    /// While sleeping: the time the next cycle may start.
    pub closed spec fn spec_wake_at(&self) -> u64 {
        self.wake_at
    }

    /// Start times of all fetch cycles so far, oldest first.
    pub closed spec fn spec_fetches(&self) -> Seq<u64> {
        self.fetches@
    }

    /// How many fetch cycles have started.
    pub closed spec fn spec_fetch_count(&self) -> u64 {
        self.fetch_count
    }

    /// The engine fetches from the moment it exists, consecutive fetches are
    /// at least one interval apart, and a sleeping engine wakes no sooner
    /// than one interval after the last fetch started.
    pub open spec fn wf(&self) -> bool {
        &&& self.spec_fetches().len() > 0
        &&& self.spec_fetch_count() == self.spec_fetches().len()
        &&& self.spec_fetches().last() == self.last_fetch_time()
        &&& forall|i: int, j: int|
            0 <= i && j == i + 1 && j < self.spec_fetches().len() ==> (
            #[trigger] self.spec_fetches()[i]) + self.spec_interval()
                <= (#[trigger] self.spec_fetches()[j])
        &&& self.spec_phase() == PollPhase::Sleeping ==> self.last_fetch_time()
            + self.spec_interval() <= self.spec_wake_at()
    }

    /// When the most recent fetch cycle started.
    pub closed spec fn last_fetch_time(&self) -> u64 {
        self.last_fetch
    }

    /// Start polling at time `now`: the first fetch begins immediately.
    pub fn new(interval: u64, now: u64) -> (e: Self)
        ensures
            e.wf(),
            e.spec_interval() == interval,
            e.spec_phase() == PollPhase::Fetching,
            e.spec_fetches() == seq![now],
            e.spec_fetch_count() == 1,
            e.last_fetch_time() == now,
    {
        let ghost f0: Seq<u64> = seq![now];
        PollEngine {
            interval,
            phase: PollPhase::Fetching,
            wake_at: 0,
            last_fetch: now,
            fetch_count: 1,
            fetches: Ghost(f0),
        }
    }

    /// The current cycle's request has resolved (success or failure) at time
    /// `now`: go to sleep for one interval.
    pub fn complete(&mut self, now: u64)
        requires
            old(self).wf(),
            old(self).spec_phase() == PollPhase::Fetching,
            now >= old(self).last_fetch_time(),
            now + old(self).spec_interval() <= u64::MAX,
        ensures
            final(self).wf(),
            final(self).spec_phase() == PollPhase::Sleeping,
            final(self).spec_wake_at() == now + old(self).spec_interval(),
            final(self).spec_interval() == old(self).spec_interval(),
            final(self).spec_fetches() == old(self).spec_fetches(),
            final(self).spec_fetch_count() == old(self).spec_fetch_count(),
            final(self).last_fetch_time() == old(self).last_fetch_time(),
    {
        self.phase = PollPhase::Sleeping;
        self.wake_at = now + self.interval;
    }

    /// The sleep has elapsed: begin the next fetch cycle at time `now`.
    pub fn wake(&mut self, now: u64)
        requires
            old(self).wf(),
            old(self).spec_phase() == PollPhase::Sleeping,
            now >= old(self).spec_wake_at(),
            old(self).spec_fetch_count() < u64::MAX,
        ensures
            final(self).wf(),
            final(self).spec_phase() == PollPhase::Fetching,
            final(self).spec_interval() == old(self).spec_interval(),
            final(self).spec_fetches() == old(self).spec_fetches().push(now),
            final(self).spec_fetch_count() == old(self).spec_fetch_count() + 1,
            final(self).last_fetch_time() == now,
    {
        self.phase = PollPhase::Fetching;
        self.last_fetch = now;
        self.fetch_count = self.fetch_count + 1;
        let ghost f = self.fetches@.push(now);
        self.fetches = Ghost(f);
        proof {
            let fs = self.fetches@;
            assert forall|i: int, j: int|
                0 <= i && j == i + 1 && j < fs.len() implies (#[trigger] fs[i]) + self.interval <= (
            #[trigger] fs[j]) by {
                if j < fs.len() - 1 {
                    assert(fs[i] == old(self).spec_fetches()[i]);
                    assert(fs[j] == old(self).spec_fetches()[j]);
                } else {
                    assert(fs[i] == old(self).spec_fetches().last());
                }
            }
        }
    }

    /// The current phase.
    pub fn phase(&self) -> (r: PollPhase)
        ensures
            r == self.spec_phase(),
    {
        self.phase
    }

    /// While sleeping: when the next cycle may start.
    pub fn wake_at(&self) -> (r: u64)
        ensures
            r == self.spec_wake_at(),
    {
        self.wake_at
    }

    /// When the most recent fetch cycle started.
    pub fn last_fetch(&self) -> (r: u64)
        ensures
            r == self.last_fetch_time(),
    {
        self.last_fetch
    }

    /// How many fetch cycles have started.
    pub fn fetch_count(&self) -> (r: u64)
        ensures
            r == self.spec_fetch_count(),
    {
        self.fetch_count
    }
}

/// Law: polling is paced by the interval alone — any two consecutive fetch
/// cycle starts on record are at least one interval apart.
pub proof fn lemma_poll_pacing(e: &PollEngine)
    requires
        e.wf(),
    ensures
        forall|i: int, j: int|
            0 <= i && j == i + 1 && j < e.spec_fetches().len() ==> (#[trigger] e.spec_fetches()[i])
                + e.spec_interval() <= (#[trigger] e.spec_fetches()[j]),
{
}

/// Law, globally: between fetch cycle `i` and later cycle `j` at least
/// `j - i` whole intervals pass, so polls never bunch up: overlapping
/// cycles are impossible and the long-run rate is bounded by the interval.
pub proof fn lemma_poll_pacing_global(e: &PollEngine, i: int, j: int)
    requires
        e.wf(),
        0 <= i <= j < e.spec_fetches().len(),
    ensures
        e.spec_fetches()[i] + (j - i) * e.spec_interval() <= e.spec_fetches()[j],
    decreases j - i,
{
    if j > i {
        lemma_poll_pacing_global(e, i, j - 1);
        assert(e.spec_fetches()[j - 1] + e.spec_interval() <= e.spec_fetches()[j]);
        assert((j - 1 - i) * e.spec_interval() + e.spec_interval() == (j - i) * e.spec_interval())
            by (nonlinear_arith);
        assert(e.spec_fetches()[i] + (j - i) * e.spec_interval() <= e.spec_fetches()[j]);
    } else {
        assert((j - i) * e.spec_interval() == 0) by (nonlinear_arith)
            requires
                i == j,
        ;
    }
}

} // verus!
