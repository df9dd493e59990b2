//! Layout of the itinerary view, computed purely from the data snapshot:
//! which legs are drawn in the visual breakdown (those above a minimal
//! duration; shorter legs stay in the data but get no region), and how wide
//! each drawn leg's region is (its share of the itinerary's total duration,
//! in hundredths).

use vstd::prelude::*;
use crate::model::Leg;

verus! {

/// Legs of at most this many seconds are omitted from the visual breakdown.
pub const MIN_VISIBLE_LEG_SECS: u64 = 60;

/// Whether a leg gets its own region in the breakdown.
pub open spec fn leg_visible(leg: Leg) -> bool {
    leg.duration_secs > MIN_VISIBLE_LEG_SECS
}

/// The indices of the visible legs among the first `n`, in order.
pub open spec fn visible_indices(legs: Seq<Leg>, n: int) -> Seq<usize>
    decreases n,
{
    if n <= 0 {
        Seq::<usize>::empty()
    } else {
        let prefix = visible_indices(legs, n - 1);
        if leg_visible(legs[n - 1]) {
            prefix.push((n - 1) as usize)
        } else {
            prefix
        }
    }
}

/// The indices of all legs that are drawn, in order.
pub fn visible_legs(legs: &Vec<Leg>) -> (idx: Vec<usize>)
    ensures
        idx@ == visible_indices(legs@, legs@.len() as int),
        forall|k: int| 0 <= k < idx@.len() ==> #[trigger] idx@[k] < legs@.len(),
{
    let mut idx: Vec<usize> = Vec::new();
    let mut i: usize = 0;
    while i < legs.len()
        invariant
            i <= legs@.len(),
            idx@ == visible_indices(legs@, i as int),
            forall|k: int| 0 <= k < idx@.len() ==> #[trigger] idx@[k] < i,
        decreases legs@.len() - i,
    {
        if legs[i].duration_secs > MIN_VISIBLE_LEG_SECS {
            idx.push(i);
        }
        i = i + 1;
    }
    idx
}

/// A leg's share of the total duration in hundredths, rounded down. The
/// share is at most 100 whenever the leg does not outlast the whole
/// itinerary.
pub fn leg_ratio(leg_secs: u64, total_secs: u64) -> (r: u64)
    requires
        total_secs > 0,
        leg_secs <= u64::MAX / 100,
    ensures
        r == leg_secs * 100 / total_secs as int,
        leg_secs <= total_secs ==> r <= 100,
{
    proof {
        if leg_secs <= total_secs {
            assert(leg_secs * 100 / total_secs as int <= 100) by (nonlinear_arith)
                requires
                    0 < total_secs,
                    leg_secs <= total_secs,
            ;
        }
    }
    leg_secs * 100 / total_secs
}

/// The drawn legs of an itinerary with their region widths: for each
/// visible leg, its index and its share of the total duration in
/// hundredths.
pub fn leg_layout(legs: &Vec<Leg>, total_secs: u64) -> (r: Vec<(usize, u64)>)
    requires
        total_secs > 0,
        forall|k: int|
            0 <= k < legs@.len() ==> (#[trigger] legs@[k]).duration_secs <= u64::MAX / 100,
    ensures
        r@.len() == visible_indices(legs@, legs@.len() as int).len(),
        forall|k: int|
            0 <= k < r@.len() ==> {
                let idx = visible_indices(legs@, legs@.len() as int)[k];
                (#[trigger] r@[k]).0 == idx && idx < legs@.len() && r@[k].1 == legs@[
                    idx as int
                ].duration_secs * 100 / total_secs as int
            },
{
    let mut r: Vec<(usize, u64)> = Vec::new();
    let mut i: usize = 0;
    while i < legs.len()
        invariant
            i <= legs@.len(),
            total_secs > 0,
            forall|k: int|
                0 <= k < legs@.len() ==> (#[trigger] legs@[k]).duration_secs <= u64::MAX / 100,
            r@.len() == visible_indices(legs@, i as int).len(),
            forall|k: int|
                0 <= k < r@.len() ==> {
                    let idx = visible_indices(legs@, i as int)[k];
                    (#[trigger] r@[k]).0 == idx && idx < i && r@[k].1 == legs@[
                        idx as int
                    ].duration_secs * 100 / total_secs as int
                },
        decreases legs@.len() - i,
    {
        if legs[i].duration_secs > MIN_VISIBLE_LEG_SECS {
            let share = leg_ratio(legs[i].duration_secs, total_secs);
            r.push((i, share));
        }
        i = i + 1;
        proof {
            assert(visible_indices(legs@, i as int) == if leg_visible(legs@[i - 1]) {
                visible_indices(legs@, i - 1).push((i - 1) as usize)
            } else {
                visible_indices(legs@, i - 1)
            });
        }
    }
    r
}

} // verus!
