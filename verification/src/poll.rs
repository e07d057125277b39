//! The poll loop's decision core. The embedding binary owns the timer, the
//! cancellation token and the network; on every wake-up it asks `poll_step`
//! whether to exit or to fetch, asks `decide_fetch_outcome` what to do with
//! the fetch result, and applies a successful cycle to the shared store with
//! `apply_cycle`.

use vstd::prelude::*;
use crate::fetcher::{FetchError, GroupStatus};
use crate::status::spec_transform;
use crate::status::transform;
use crate::store::{apply_upserts, StatusStore};

verus! {

/// The loop's state: it runs until cancellation, then stays cancelled.
#[derive(Clone, Copy, PartialEq, Eq, Structural, Debug)]
pub enum PollState {
    Running,
    Cancelled,
}

/// What woke the loop: the cancellation signal, or the poll interval
/// elapsing. When both are pending the caller reports the cancellation.
#[derive(Clone, Copy, PartialEq, Eq, Structural, Debug)]
pub enum WakeEvent {
    CancelFired,
    IntervalElapsed,
}

/// What the loop does next: exit, or start one fetch-transform-store cycle.
#[derive(Clone, Copy, PartialEq, Eq, Structural, Debug)]
pub enum PollDecision {
    Exit,
    Fetch,
}

/// What to do when a cycle's fetch has failed: abort the whole process, or
/// skip the cycle, keep the previous samples and poll again.
#[derive(Clone, Copy, PartialEq, Eq, Structural, Debug)]
pub enum FetchFailurePolicy {
    Abort,
    SkipCycle,
}

/// The verdict on one fetch result.
#[derive(Clone, Copy, PartialEq, Eq, Structural, Debug)]
pub enum FetchDecision {
    Apply,
    Skip,
    Abort,
}

/// The loop's transition function: cancellation, in the state or in the
/// event, forces an exit; only a running loop woken by the timer fetches.
pub open spec fn spec_poll_step(state: PollState, event: WakeEvent) -> (PollState, PollDecision) {
    if state == PollState::Cancelled || event == WakeEvent::CancelFired {
        (PollState::Cancelled, PollDecision::Exit)
    } else {
        (PollState::Running, PollDecision::Fetch)
    }
}

/// One wake-up of the poll loop: returns the next state and the decision.
/// A fetch is started exactly when the loop is still running and the wake-up
/// came from the interval timer, never after cancellation.
pub fn poll_step(state: PollState, event: WakeEvent) -> (r: (PollState, PollDecision))
    ensures
        r == spec_poll_step(state, event),
        (r.1 == PollDecision::Fetch) <==> (state == PollState::Running && event
            == WakeEvent::IntervalElapsed),
{
    match (state, event) {
        (PollState::Running, WakeEvent::IntervalElapsed) => (PollState::Running, PollDecision::Fetch),
        _ => (PollState::Cancelled, PollDecision::Exit),
    }
}

/// Cancellation wins over the timer: a wake-up that reports the cancellation
/// signal never starts a fetch, and a cancelled loop never fetches nor
/// returns to the running state, whatever wakes it.
pub proof fn lemma_no_fetch_after_cancel(state: PollState, event: WakeEvent)
    ensures
        event == WakeEvent::CancelFired ==> spec_poll_step(state, event).1 != PollDecision::Fetch,
        spec_poll_step(PollState::Cancelled, event).1 != PollDecision::Fetch,
        spec_poll_step(PollState::Cancelled, event).0 == PollState::Cancelled,
{
}

/// The verdict on one fetch result under a failure policy: a successful
/// fetch is applied; a failed one aborts under `Abort` and is skipped under
/// `SkipCycle`.
pub fn decide_fetch_outcome(
    policy: FetchFailurePolicy,
    fetched: &Result<Vec<GroupStatus>, FetchError>,
) -> (d: FetchDecision)
    ensures
        (d == FetchDecision::Apply) <==> fetched.is_ok(),
        (d == FetchDecision::Abort) <==> (fetched.is_err() && policy == FetchFailurePolicy::Abort),
        (d == FetchDecision::Skip) <==> (fetched.is_err() && policy
            == FetchFailurePolicy::SkipCycle),
{
    match fetched {
        Ok(_) => FetchDecision::Apply,
        Err(_) => match policy {
            FetchFailurePolicy::Abort => FetchDecision::Abort,
            FetchFailurePolicy::SkipCycle => FetchDecision::Skip,
        },
    }
}

/// The upserts that one cycle's statuses perform: each group's name, paired
/// with its transformed sample, in fetch order.
pub open spec fn spec_cycle_upserts(statuses: Seq<GroupStatus>) -> Seq<
    (Seq<char>, crate::status::JobStatusSample),
> {
    statuses.map_values(|g: GroupStatus| (g.name@, spec_transform(g.status)))
}

/// Applies one successful poll cycle to the store: every fetched group's
/// status is transformed and upserted, in order, so the store afterwards
/// holds exactly the prior bindings overridden by this cycle's samples.
pub fn apply_cycle(store: &mut StatusStore, statuses: &Vec<GroupStatus>)
    requires
        old(store).wf(),
    ensures
        final(store).wf(),
        final(store)@ == apply_upserts(old(store)@, spec_cycle_upserts(statuses@)),
{
    let ghost ups = spec_cycle_upserts(statuses@);
    let n = statuses.len();
    let mut i: usize = 0;
    while i < n
        invariant
            i <= n,
            n == statuses@.len(),
            ups == spec_cycle_upserts(statuses@),
            store.wf(),
            store@ == apply_upserts(old(store)@, ups.take(i as int)),
        decreases n - i,
    {
        let sample = transform(&statuses[i].status);
        let name = statuses[i].name.clone();
        store.upsert(name, sample);
        proof {
            assert(ups.take(i + 1 as int).drop_last() =~= ups.take(i as int));
            assert(ups.take(i + 1 as int).last() == ups[i as int]);
        }
        i += 1;
    }
    proof {
        assert(ups.take(n as int) =~= ups);
    }
}

} // verus!
