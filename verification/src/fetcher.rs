//! The compute half of the status fetcher. The embedding binary performs
//! the two-step orchestrator query (list jobs, then fetch each job's scale
//! status) and hands the decoded bodies to this module, which flattens them
//! into the ordered sequence of per-group statuses that one poll cycle
//! applies to the store.

use vstd::prelude::*;
use vstd::string::StringExecFns;
use crate::status::JobScaleStatus;

verus! {

/// Why a poll cycle's fetch failed: the transport failed or answered with a
/// non-success status, or a body did not match the expected schema.
#[derive(Clone, Copy, PartialEq, Eq, Structural, Debug)]
pub enum FetchError {
    Transport,
    Schema,
}

/// One task group's name and raw status, as one fetch reported it.
#[derive(Debug)]
pub struct GroupStatus {
    pub name: String,
    pub status: JobScaleStatus,
}

/// One job's scale response: its task groups in the order they were decoded.
#[derive(Debug)]
pub struct JobScale {
    pub task_groups: Vec<GroupStatus>,
}

/// The groups of a sequence of jobs, in job order and, within one job, in
/// group order.
pub open spec fn spec_concat_groups(scales: Seq<Seq<GroupStatus>>) -> Seq<GroupStatus>
    decreases scales.len(),
{
    if scales.len() == 0 {
        Seq::empty()
    } else {
        spec_concat_groups(scales.drop_last()) + scales.last()
    }
}

/// The request target of the job-list query: `{base}v1/jobs`, where `base`
/// is the orchestrator base URL, with its trailing slash.
pub fn jobs_list_path(base: &str) -> (r: String)
    ensures
        r@ == base@ + "v1/jobs"@,
{
    let mut r = String::from_str(base);
    r.append("v1/jobs");
    r
}

/// The request target of one job's scale query:
/// `{base}v1/job/{job}/scale`.
pub fn job_scale_path(base: &str, job: &str) -> (r: String)
    ensures
        r@ == base@ + "v1/job/"@ + job@ + "/scale"@,
{
    let mut r = String::from_str(base);
    r.append("v1/job/");
    r.append(job);
    r.append("/scale");
    r
}

/// A field-for-field copy of one group status.
fn clone_group(g: &GroupStatus) -> (r: GroupStatus)
    ensures
        r == *g,
{
    GroupStatus { name: g.name.clone(), status: g.status }
}

/// Flattens the per-job scale responses of one poll cycle into the single
/// ordered list of (group, status) pairs that covers every task group of
/// every job.
pub fn flatten_job_scales(scales: &Vec<JobScale>) -> (res: Vec<GroupStatus>)
    ensures
        res@ == spec_concat_groups(scales@.map_values(|js: JobScale| js.task_groups@)),
{
    let ghost mapped = scales@.map_values(|js: JobScale| js.task_groups@);
    let mut res: Vec<GroupStatus> = Vec::new();
    let n = scales.len();
    let mut i: usize = 0;
    while i < n
        invariant
            i <= n,
            n == scales@.len(),
            mapped == scales@.map_values(|js: JobScale| js.task_groups@),
            res@ == spec_concat_groups(mapped.take(i as int)),
        decreases n - i,
    {
        let groups = &scales[i].task_groups;
        let m = groups.len();
        let mut j: usize = 0;
        while j < m
            invariant
                j <= m,
                i < n,
                n == scales@.len(),
                m == scales@[i as int].task_groups@.len(),
                groups == &scales[i as int].task_groups,
                mapped == scales@.map_values(|js: JobScale| js.task_groups@),
                res@ == spec_concat_groups(mapped.take(i as int)) + scales@[i as int].task_groups@.take(
                    j as int,
                ),
            decreases m - j,
        {
            let g = clone_group(&groups[j]);
            res.push(g);
            proof {
                assert(scales@[i as int].task_groups@.take(j + 1 as int)
                    =~= scales@[i as int].task_groups@.take(j as int).push(
                    scales@[i as int].task_groups@[j as int],
                ));
            }
            j += 1;
        }
        proof {
            assert(mapped.take(i + 1 as int).drop_last() =~= mapped.take(i as int));
            assert(scales@[i as int].task_groups@.take(m as int) =~= mapped[i as int]);
        }
        i += 1;
    }
    proof {
        assert(mapped.take(n as int) =~= mapped);
    }
    res
}

} // verus!
