//! The job runner's schedule: the exact ordered sequence of gateway actions
//! that one publish job performs.
//!
//! The runner is deliberately outcome-independent: a failed publish is logged
//! by the executing side and the sequence continues (best-effort semantics),
//! so the schedule of one job is a pure function of the job description. The
//! executing side walks the schedule in order on a background context; the
//! decisions — what to publish, in what order, when to unsubscribe and when
//! to resolve the handle — all live here and are verified.

use vstd::prelude::*;
use crate::job::{payload_text, build_payload, JobResult, PublishJob};

verus! {

/// One step of a job, in the order the background worker performs them.
pub enum Action {
    /// Publish the payload for `index` to the job's topic.
    Publish { index: u64, payload: String },
    /// Wait for the job's inter-step delay.
    Sleep { units: u64 },
    /// Drop the subscription on the job's topic.
    Unsubscribe,
    /// Hand the terminal outcome to the job handle.
    Resolve { outcome: JobResult },
}

/// The shape of a complete schedule for a job with `count` steps and
/// inter-step delay `delay`: for each step, a publish of the step's payload
/// followed by a sleep; then one unsubscribe; then, last of all, a resolve
/// carrying the success marker.
pub open spec fn plan_shape(s: Seq<Action>, count: nat, delay: u64) -> bool {
    &&& s.len() == 2 * count + 2
    &&& forall|k: int|
        0 <= k < 2 * count ==> if k % 2 == 0 {
            &&& (#[trigger] s[k]) is Publish
            &&& s[k]->index == k / 2
            &&& (s[k]->payload)@ == payload_text((k / 2) as nat)
        } else {
            &&& s[k] is Sleep
            &&& s[k]->units == delay
        }
    &&& s[2 * count as int] is Unsubscribe
    &&& s[(2 * count + 1) as int] is Resolve
    &&& s[(2 * count + 1) as int]->outcome matches JobResult::Success(m) && m@ == "done"@
}

/// Builds the schedule of a job: `count` publish/sleep pairs in index order,
/// then the unsubscribe, then the resolution.
pub fn plan(job: &PublishJob) -> (r: Vec<Action>)
    requires
        2 * job.count + 2 <= usize::MAX,
    ensures
        plan_shape(r@, job.count as nat, job.delay_units),
{
    proof {
        reveal_strlit("done");
    }
    let mut r: Vec<Action> = Vec::new();
    let mut i: u64 = 0;
    while i < job.count
        invariant
            i <= job.count,
            2 * job.count + 2 <= usize::MAX,
            r@.len() == 2 * i,
            forall|k: int|
                0 <= k < 2 * i ==> if k % 2 == 0 {
                    &&& (#[trigger] r@[k]) is Publish
                    &&& r@[k]->index == k / 2
                    &&& (r@[k]->payload)@ == payload_text((k / 2) as nat)
                } else {
                    &&& r@[k] is Sleep
                    &&& r@[k]->units == job.delay_units
                },
        decreases job.count - i,
    {
        let payload = build_payload(i);
        r.push(Action::Publish { index: i, payload });
        r.push(Action::Sleep { units: job.delay_units });
        i = i + 1;
    }
    r.push(Action::Unsubscribe);
    r.push(Action::Resolve { outcome: JobResult::Success("done".to_owned()) });
    r
}

/// Eventual resolution: a schedule for `count` steps is finite — `count`
/// publish attempts, `count` delays, one unsubscribe attempt — and its last
/// action, and only its last action, resolves the handle, with a success,
/// whatever the individual publish outcomes were (they do not enter the
/// schedule at all).
pub proof fn lemma_eventual_resolution(s: Seq<Action>, count: nat, delay: u64)
    requires
        plan_shape(s, count, delay),
    ensures
        s.len() == 2 * count + 2,
        s[s.len() - 1] is Resolve,
        s[s.len() - 1]->outcome is Success,
        forall|k: int| 0 <= k < s.len() - 1 ==> !((#[trigger] s[k]) is Resolve),
{
    assert forall|k: int| 0 <= k < s.len() - 1 implies !((#[trigger] s[k]) is Resolve) by {
        if k < 2 * count {
            if k % 2 == 0 {
                assert(s[k] is Publish);
            } else {
                assert(s[k] is Sleep);
            }
        } else {
            assert(s[k] is Unsubscribe);
        }
    }
}

/// Publishes stand exactly at the even positions before the unsubscribe, one
/// for each step index: a job with `count` steps performs exactly `count`
/// publishes, and nothing after the unsubscribe publishes.
pub proof fn lemma_publish_positions(s: Seq<Action>, count: nat, delay: u64)
    requires
        plan_shape(s, count, delay),
    ensures
        forall|k: int|
            0 <= k < s.len() ==> ((#[trigger] s[k]) is Publish <==> (k < 2 * count && k % 2
                == 0)),
        forall|k: int|
            0 <= k < s.len() && (#[trigger] s[k]) is Publish ==> s[k]->index == k / 2,
{
    assert forall|k: int|
        0 <= k < s.len() implies ((#[trigger] s[k]) is Publish <==> (k < 2 * count && k % 2
        == 0)) by {
        if k < 2 * count {
            if k % 2 == 0 {
                assert(s[k] is Publish);
            } else {
                assert(s[k] is Sleep);
            }
        } else if k == 2 * count {
            assert(s[k] is Unsubscribe);
        } else {
            assert(s[k] is Resolve);
        }
    }
}

/// Ordering: within one schedule, publishes are observed in strictly
/// increasing index order — never reordered and never parallelized, since the
/// schedule is a sequence walked front to back.
pub proof fn lemma_publish_ordering(s: Seq<Action>, count: nat, delay: u64, k1: int, k2: int)
    requires
        plan_shape(s, count, delay),
        0 <= k1 < k2 < s.len(),
        s[k1] is Publish,
        s[k2] is Publish,
    ensures
        s[k1]->index < s[k2]->index,
{
    lemma_publish_positions(s, count, delay);
    assert(k1 % 2 == 0 && k2 % 2 == 0);
    assert(k1 / 2 < k2 / 2) by (nonlinear_arith)
        requires
            k1 < k2,
            k1 % 2 == 0,
            k2 % 2 == 0,
    ;
}

} // verus!
