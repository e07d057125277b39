//! Raw orchestrator scale status and its transformation into the published
//! measures (up count, down count, up-ratio).

use vstd::prelude::*;

verus! {

/// One task group's scale status as the orchestrator reports it:
/// the `Desired`, `Healthy`, `Placed`, `Running` and `Unhealthy` counts.
#[derive(Clone, Copy, PartialEq, Eq, Structural, Debug)]
pub struct JobScaleStatus {
    pub desired: u32,
    pub healthy: u32,
    pub placed: u32,
    pub running: u32,
    pub unhealthy: u32,
}

/// An exact rational number `num / den`. The up-ratio gauge is kept in this
/// form inside the core; the embedding binary converts it to a float only at
/// the emission edge.
#[derive(Clone, Copy, PartialEq, Eq, Structural, Debug)]
pub struct Ratio {
    pub num: u32,
    pub den: u32,
}

impl Ratio {
    /// A ratio is well formed when its denominator is positive, so that its
    /// value is always defined.
    pub open spec fn wf(self) -> bool {
        self.den > 0
    }
}

/// The three published measures for one task group.
#[derive(Clone, Copy, PartialEq, Eq, Structural, Debug)]
pub struct JobStatusSample {
    /// Published as the `nomad_job_up` gauge: the healthy count.
    pub up: u64,
    /// Published as the `nomad_job_down` gauge: the unhealthy count.
    pub down: u64,
    /// Published as the `nomad_job_status_ratio` gauge: healthy over desired.
    pub up_ratio: Ratio,
}

impl JobStatusSample {
    pub open spec fn wf(self) -> bool {
        self.up_ratio.wf()
    }
}

/// The up-ratio policy: `healthy / desired`, and when `desired` is zero the
/// ratio is zero (written `0 / 1`) rather than an undefined division.
pub open spec fn spec_ratio(desired: u32, healthy: u32) -> Ratio {
    if desired == 0 {
        Ratio { num: 0, den: 1 }
    } else {
        Ratio { num: healthy, den: desired }
    }
}

/// What the transformation returns: up is the healthy count, down the
/// unhealthy count, and the up-ratio follows `spec_ratio`.
pub open spec fn spec_transform(status: JobScaleStatus) -> JobStatusSample {
    JobStatusSample {
        up: status.healthy as u64,
        down: status.unhealthy as u64,
        up_ratio: spec_ratio(status.desired, status.healthy),
    }
}

/// Turns one raw scale status into the sample that is published for its
/// group: `up = healthy`, `down = unhealthy`, `up_ratio = healthy / desired`
/// (zero when nothing is desired).
pub fn transform(status: &JobScaleStatus) -> (s: JobStatusSample)
    ensures
        s == spec_transform(*status),
        s.wf(),
{
    let up_ratio = if status.desired == 0 {
        Ratio { num: 0, den: 1 }
    } else {
        Ratio { num: status.healthy, den: status.desired }
    };
    JobStatusSample { up: status.healthy as u64, down: status.unhealthy as u64, up_ratio }
}

} // verus!
