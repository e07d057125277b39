//! The metric callback's compute half. The metrics runtime invokes the
//! registered callback on its own cadence; the callback takes a snapshot of
//! the shared store, turns it into observations here, and emits one gauge
//! sample per instrument per observation.

use vstd::prelude::*;
use crate::status::Ratio;
use crate::store::StoreEntry;

verus! {

/// One group's emission: the label value and the three gauge readings.
#[derive(Debug)]
pub struct Observation {
    /// The value of the group-name label on every emitted series.
    pub group: String,
    /// The `nomad_job_up` gauge reading.
    pub up: u64,
    /// The `nomad_job_down` gauge reading.
    pub down: u64,
    /// The `nomad_job_status_ratio` gauge reading, as an exact rational.
    pub up_ratio: Ratio,
}

/// The observation that one stored entry yields: its name as the label and
/// its sample's fields as the readings.
pub open spec fn spec_observation_of(e: StoreEntry) -> Observation {
    Observation { group: e.name, up: e.sample.up, down: e.sample.down, up_ratio: e.sample.up_ratio }
}

/// Turns a store snapshot into the observations of one collection tick: one
/// observation per snapshot entry, in snapshot order, with no filtering and
/// no aggregation across groups.
pub fn collect_observations(snapshot: &Vec<StoreEntry>) -> (obs: Vec<Observation>)
    ensures
        obs@ == snapshot@.map_values(|e: StoreEntry| spec_observation_of(e)),
{
    let ghost mapped = snapshot@.map_values(|e: StoreEntry| spec_observation_of(e));
    let n = snapshot.len();
    let mut obs: Vec<Observation> = Vec::new();
    let mut i: usize = 0;
    while i < n
        invariant
            i <= n,
            n == snapshot@.len(),
            mapped == snapshot@.map_values(|e: StoreEntry| spec_observation_of(e)),
            obs@.len() == i,
            forall|j: int| 0 <= j < i ==> obs@[j] == mapped[j],
        decreases n - i,
    {
        let e = &snapshot[i];
        let o = Observation {
            group: e.name.clone(),
            up: e.sample.up,
            down: e.sample.down,
            up_ratio: e.sample.up_ratio,
        };
        obs.push(o);
        i += 1;
    }
    proof {
        assert(obs@ =~= mapped);
    }
    obs
}

} // verus!
