use nomad_metrics_scraper::fetcher::{flatten_job_scales, GroupStatus, JobScale};
use nomad_metrics_scraper::observer::collect_observations;
use nomad_metrics_scraper::poll::{apply_cycle, poll_step, PollDecision, PollState, WakeEvent};
use nomad_metrics_scraper::shutdown::{shutdown_plan, ShutdownStep};
use nomad_metrics_scraper::status::JobScaleStatus;
use nomad_metrics_scraper::store::StatusStore;

fn scale(desired: u32, healthy: u32, unhealthy: u32) -> JobScaleStatus {
    JobScaleStatus { desired, healthy, placed: healthy, running: healthy, unhealthy }
}

fn group(name: &str, status: JobScaleStatus) -> GroupStatus {
    GroupStatus { name: String::from(name), status }
}

#[test]
fn one_job_one_group_full_cycle() {
    // The orchestrator reports one job "web" with one task group "web"
    // having Desired: 4, Healthy: 4, Unhealthy: 0.
    let scales = vec![JobScale { task_groups: vec![group("web", scale(4, 4, 0))] }];
    let statuses = flatten_job_scales(&scales);

    let mut store = StatusStore::new();
    apply_cycle(&mut store, &statuses);

    // One collection tick after the cycle.
    let observations = collect_observations(&store.snapshot());
    assert_eq!(observations.len(), 1);
    let obs = &observations[0];
    assert_eq!(obs.group, "web");
    assert_eq!(obs.up, 4);
    assert_eq!(obs.down, 0);
    assert_eq!(obs.up_ratio.num as f64 / obs.up_ratio.den as f64, 1.0);
}

#[test]
fn flatten_covers_all_groups_in_order() {
    let scales = vec![
        JobScale {
            task_groups: vec![group("web", scale(4, 4, 0)), group("worker", scale(2, 1, 1))],
        },
        JobScale { task_groups: vec![group("db", scale(1, 1, 0))] },
    ];
    let statuses = flatten_job_scales(&scales);
    let names: Vec<&str> = statuses.iter().map(|g| g.name.as_str()).collect();
    assert_eq!(names, vec!["web", "worker", "db"]);
    assert_eq!(statuses[1].status, scale(2, 1, 1));
}

#[test]
fn mid_cycle_snapshot_shows_per_key_atomicity() {
    // Two jobs, each with one group. A cycle has already run once.
    let mut store = StatusStore::new();
    let first_cycle = vec![group("alpha", scale(3, 3, 0)), group("beta", scale(3, 3, 0))];
    apply_cycle(&mut store, &first_cycle);

    // The next cycle would carry "alpha" and then "beta", but it is only
    // half applied: "alpha" has been upserted, "beta" not yet. A snapshot
    // taken now sees the new "alpha" and the previous "beta" — per-key
    // atomicity, not whole-cycle atomicity.
    let applied_half = vec![group("alpha", scale(3, 1, 2))];
    apply_cycle(&mut store, &applied_half);

    let snap = store.snapshot();
    let alpha = snap.iter().find(|e| e.name == "alpha").unwrap();
    let beta = snap.iter().find(|e| e.name == "beta").unwrap();
    assert_eq!(alpha.sample.up, 1);
    assert_eq!(alpha.sample.down, 2);
    assert_eq!(beta.sample.up, 3);
    assert_eq!(beta.sample.down, 0);
}

#[test]
fn mid_cycle_snapshot_on_first_run_misses_unwritten_group() {
    let mut store = StatusStore::new();
    store.upsert(String::from("alpha"), {
        let statuses = flatten_job_scales(&vec![JobScale {
            task_groups: vec![group("alpha", scale(2, 2, 0))],
        }]);
        nomad_metrics_scraper::status::transform(&statuses[0].status)
    });
    let snap = store.snapshot();
    assert!(snap.iter().any(|e| e.name == "alpha"));
    assert!(!snap.iter().any(|e| e.name == "beta"));
}

#[test]
fn shutdown_flushes_every_stored_sample_after_cancel() {
    // Samples from earlier cycles sit in the store.
    let mut store = StatusStore::new();
    let cycle = vec![group("web", scale(4, 4, 0)), group("db", scale(2, 1, 1))];
    apply_cycle(&mut store, &cycle);

    // Cancellation is signaled: the loop exits without another fetch.
    let (state, decision) = poll_step(PollState::Running, WakeEvent::CancelFired);
    assert_eq!(state, PollState::Cancelled);
    assert_eq!(decision, PollDecision::Exit);

    // The coordinator's plan: cancel first, then flush, then close.
    let plan = shutdown_plan(true);
    assert_eq!(
        plan,
        vec![ShutdownStep::SignalCancel, ShutdownStep::FlushMetrics, ShutdownStep::CloseProvider]
    );

    // The flush step drives one final collection: every sample upserted
    // before the cancellation is offered to the exporter.
    let offered = collect_observations(&store.snapshot());
    assert_eq!(offered.len(), 2);
    assert!(offered.iter().any(|o| o.group == "web" && o.up == 4 && o.down == 0));
    assert!(offered.iter().any(|o| o.group == "db" && o.up == 1 && o.down == 1));
}

#[test]
fn shutdown_plan_without_listener_still_cancels() {
    let plan = shutdown_plan(false);
    assert_eq!(plan, vec![ShutdownStep::SignalCancel]);
}
