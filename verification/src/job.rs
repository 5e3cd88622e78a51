//! Description of one publish job and of its terminal outcome.

use vstd::prelude::*;
use crate::text::{decimal, push_decimal};

verus! {

/// Delivery guarantee tier for a published message.
#[derive(Clone, Copy, PartialEq, Eq, Structural, Debug)]
pub enum QosLevel {
    AtMostOnce,
    AtLeastOnce,
    ExactlyOnce,
}

/// Immutable description of one publish run: target topic, delivery tier,
/// number of sequential steps, and the delay between steps. Built once when
/// a job starts and never mutated afterwards.
pub struct PublishJob {
    pub topic: String,
    pub qos: QosLevel,
    pub count: u64,
    pub delay_units: u64,
}

/// Terminal outcome of one job: a success marker or a failure reason.
pub enum JobResult {
    Success(String),
    Failure(String),
}

impl JobResult {
    /// Whether this outcome is a success.
    pub fn is_success(&self) -> (r: bool)
        ensures
            r == (self is Success),
    {
        match self {
            JobResult::Success(_) => true,
            JobResult::Failure(_) => false,
        }
    }

    /// The marker or reason carried by this outcome.
    pub fn message(&self) -> (r: &String)
        ensures
            self matches JobResult::Success(m) ==> r == m,
            self matches JobResult::Failure(m) ==> r == m,
    {
        match self {
            JobResult::Success(m) => m,
            JobResult::Failure(m) => m,
        }
    }
}

/// The payload text published at step `i`: a small structured record holding
/// the step index inside a human-readable marker string.
pub open spec fn payload_text(i: nat) -> Seq<char> {
    "{\"test\": \"Hello world "@ + decimal(i) + ".\"}"@
}

/// Builds the payload for step `i`.
pub fn build_payload(i: u64) -> (r: String)
    ensures
        r@ == payload_text(i as nat),
{
    proof {
        reveal_strlit("{\"test\": \"Hello world ");
        reveal_strlit(".\"}");
    }
    let mut s = "{\"test\": \"Hello world ".to_owned();
    push_decimal(&mut s, i);
    s.append(".\"}");
    s
}

} // verus!
