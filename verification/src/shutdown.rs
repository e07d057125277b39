//! The shutdown coordinator's plan. On the interrupt signal the embedding
//! binary executes the returned steps in order, completing each before the
//! next and all of them before the process exits: cancel the poll loop,
//! then flush the metrics pipeline, then close it. When even installing the
//! interrupt listener fails, the poller is still cancelled so it does not
//! run on unmonitored.

use vstd::prelude::*;

verus! {

/// One step of the ordered shutdown sequence.
#[derive(Clone, Copy, PartialEq, Eq, Structural, Debug)]
pub enum ShutdownStep {
    /// Signal cancellation to the poll loop.
    SignalCancel,
    /// Force every buffered metric out of the pipeline.
    FlushMetrics,
    /// Shut the metrics pipeline down.
    CloseProvider,
}

/// The steps to run on shutdown: with a working interrupt listener, cancel,
/// then flush, then close; without one, only cancel.
pub open spec fn spec_shutdown_plan(listener_ok: bool) -> Seq<ShutdownStep> {
    if listener_ok {
        seq![ShutdownStep::SignalCancel, ShutdownStep::FlushMetrics, ShutdownStep::CloseProvider]
    } else {
        seq![ShutdownStep::SignalCancel]
    }
}

/// Builds the shutdown plan. `listener_ok` says whether the interrupt
/// listener was installed and delivered a signal; when it could not be, the
/// plan still cancels the poller.
pub fn shutdown_plan(listener_ok: bool) -> (plan: Vec<ShutdownStep>)
    ensures
        plan@ == spec_shutdown_plan(listener_ok),
{
    let mut plan: Vec<ShutdownStep> = Vec::new();
    plan.push(ShutdownStep::SignalCancel);
    if listener_ok {
        plan.push(ShutdownStep::FlushMetrics);
        plan.push(ShutdownStep::CloseProvider);
    }
    proof {
        assert(plan@ =~= spec_shutdown_plan(listener_ok));
    }
    plan
}

/// The ordering the coordinator owes: every plan begins by cancelling the
/// poller; a flush always stands after the cancellation and before every
/// close, so no further fetch runs while buffered samples are flushed, and
/// the pipeline is not torn down before the flush step.
pub proof fn lemma_shutdown_order(listener_ok: bool)
    ensures
        spec_shutdown_plan(listener_ok).len() > 0,
        spec_shutdown_plan(listener_ok)[0] == ShutdownStep::SignalCancel,
        forall|i: int, j: int|
            0 <= i < spec_shutdown_plan(listener_ok).len() && 0 <= j < spec_shutdown_plan(
                listener_ok,
            ).len() && spec_shutdown_plan(listener_ok)[i] == ShutdownStep::SignalCancel
                && spec_shutdown_plan(listener_ok)[j] == ShutdownStep::FlushMetrics ==> i < j,
        forall|i: int, j: int|
            0 <= i < spec_shutdown_plan(listener_ok).len() && 0 <= j < spec_shutdown_plan(
                listener_ok,
            ).len() && spec_shutdown_plan(listener_ok)[i] == ShutdownStep::FlushMetrics
                && spec_shutdown_plan(listener_ok)[j] == ShutdownStep::CloseProvider ==> i < j,
{
}

} // verus!
