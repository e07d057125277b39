use nomad_metrics_scraper::fetcher::{job_scale_path, jobs_list_path, FetchError, GroupStatus};
use nomad_metrics_scraper::poll::{
    decide_fetch_outcome, poll_step, FetchDecision, FetchFailurePolicy, PollDecision, PollState,
    WakeEvent,
};

#[test]
fn cancellation_while_sleeping_exits_without_fetch() {
    // The loop is mid-sleep when cancellation fires: the wake-up reports the
    // cancellation, and the decision is to exit, not to fetch.
    let (state, decision) = poll_step(PollState::Running, WakeEvent::CancelFired);
    assert_eq!(state, PollState::Cancelled);
    assert_eq!(decision, PollDecision::Exit);
}

#[test]
fn cancelled_loop_never_fetches_again() {
    let (state, decision) = poll_step(PollState::Cancelled, WakeEvent::IntervalElapsed);
    assert_eq!(state, PollState::Cancelled);
    assert_eq!(decision, PollDecision::Exit);
    let (state, decision) = poll_step(PollState::Cancelled, WakeEvent::CancelFired);
    assert_eq!(state, PollState::Cancelled);
    assert_eq!(decision, PollDecision::Exit);
}

#[test]
fn elapsed_interval_starts_a_fetch() {
    let (state, decision) = poll_step(PollState::Running, WakeEvent::IntervalElapsed);
    assert_eq!(state, PollState::Running);
    assert_eq!(decision, PollDecision::Fetch);
}

#[test]
fn successful_fetch_is_applied() {
    let ok: Result<Vec<GroupStatus>, FetchError> = Ok(Vec::new());
    assert_eq!(decide_fetch_outcome(FetchFailurePolicy::Abort, &ok), FetchDecision::Apply);
    assert_eq!(decide_fetch_outcome(FetchFailurePolicy::SkipCycle, &ok), FetchDecision::Apply);
}

#[test]
fn transport_failure_follows_the_policy() {
    let err: Result<Vec<GroupStatus>, FetchError> = Err(FetchError::Transport);
    assert_eq!(decide_fetch_outcome(FetchFailurePolicy::Abort, &err), FetchDecision::Abort);
    assert_eq!(decide_fetch_outcome(FetchFailurePolicy::SkipCycle, &err), FetchDecision::Skip);
}

#[test]
fn schema_failure_follows_the_policy() {
    let err: Result<Vec<GroupStatus>, FetchError> = Err(FetchError::Schema);
    assert_eq!(decide_fetch_outcome(FetchFailurePolicy::Abort, &err), FetchDecision::Abort);
    assert_eq!(decide_fetch_outcome(FetchFailurePolicy::SkipCycle, &err), FetchDecision::Skip);
}

#[test]
fn request_paths_follow_the_api_contract() {
    assert_eq!(jobs_list_path("http://localhost:4646/"), "http://localhost:4646/v1/jobs");
    assert_eq!(
        job_scale_path("http://localhost:4646/", "web"),
        "http://localhost:4646/v1/job/web/scale"
    );
}
