//! The polling front end: it owns the single outstanding job handle (if
//! any), derives the trigger control's state, and consumes the terminal
//! result when a poll finds one.

use vstd::prelude::*;
use crate::handle::JobHandle;
use crate::job::{JobResult, PublishJob};

verus! {

/// Whether the trigger control accepts an activation.
#[derive(Clone, Copy, PartialEq, Eq, Structural, Debug)]
pub enum TriggerState {
    Enabled,
    Disabled,
}

/// The presenter's state: the static job configuration, the handle of the
/// one outstanding job (if any), and the last terminal result observed.
pub struct Presenter {
    config: PublishJob,
    handle: Option<JobHandle>,
    last_result: Option<JobResult>,
}

impl Presenter {
    /// Whether a job is outstanding: a handle exists and is unconsumed.
    pub closed spec fn is_busy(self) -> bool {
        self.handle is Some
    }

    /// Whether the outstanding job's handle still awaits its resolution.
    pub closed spec fn awaiting(self) -> bool {
        self.handle matches Some(h) && !h.is_resolved()
    }

    /// The result sitting in the outstanding handle, not yet consumed.
    pub closed spec fn pending_result(self) -> Option<JobResult> {
        match self.handle {
            Some(h) => h.pending(),
            None => None,
        }
    }

    /// The static configuration jobs are built from.
    pub closed spec fn spec_config(self) -> PublishJob {
        self.config
    }

    /// The last terminal result a tick has consumed.
    pub closed spec fn spec_last(self) -> Option<JobResult> {
        self.last_result
    }

    /// A held handle is well formed and its result not yet handed out: a
    /// consumed handle is discarded by the same tick that consumes it.
    pub closed spec fn wf(self) -> bool {
        self.handle matches Some(h) ==> h.wf() && !h.is_consumed()
    }

    /// The trigger is enabled exactly when no job is outstanding.
    pub open spec fn spec_trigger_state(self) -> TriggerState {
        if self.is_busy() {
            TriggerState::Disabled
        } else {
            TriggerState::Enabled
        }
    }

    /// A presenter in the idle state, with the given configuration and no
    /// result yet.
    pub fn new(config: PublishJob) -> (p: Presenter)
        ensures
            p.spec_config() == config,
            !p.is_busy(),
            !p.awaiting(),
            p.spec_last() is None,
            p.wf(),
    {
        Presenter { config, handle: None, last_result: None }
    }

    /// The state of the trigger control, derived and never stored.
    pub fn trigger_state(&self) -> (r: TriggerState)
        ensures
            r == self.spec_trigger_state(),
    {
        if self.handle.is_some() {
            TriggerState::Disabled
        } else {
            TriggerState::Enabled
        }
    }

    /// Whether the outstanding job's handle still awaits its resolution —
    /// the state in which a worker's result may be delivered.
    pub fn is_awaiting(&self) -> (r: bool)
        ensures
            r == self.awaiting(),
    {
        match &self.handle {
            Some(h) => !h.resolved_yet(),
            None => false,
        }
    }

    /// The last terminal result observed, for the status label.
    pub fn last_result(&self) -> (r: &Option<JobResult>)
        ensures
            r == self.spec_last(),
    {
        &self.last_result
    }

    /// Acts on a trigger activation. A new job may start only while the
    /// trigger is enabled: while a job is outstanding the activation is a
    /// no-op — the presenter is left exactly as it was and no job is handed
    /// out — so at most one job is ever in flight. While idle, a fresh
    /// handle is created and the job to run, built from the configuration,
    /// is handed to the caller to spawn on a background context.
    pub fn activate(&mut self) -> (r: Option<PublishJob>)
        ensures
            r is Some <==> !old(self).is_busy(),
            old(self).is_busy() ==> *final(self) == *old(self),
            !old(self).is_busy() ==> {
                &&& final(self).is_busy()
                &&& final(self).awaiting()
                &&& final(self).spec_trigger_state() is Disabled
                &&& final(self).pending_result() is None
                &&& final(self).spec_config() == old(self).spec_config()
                &&& final(self).spec_last() == old(self).spec_last()
                &&& r matches Some(job) && {
                    &&& job.topic@ == old(self).spec_config().topic@
                    &&& job.qos == old(self).spec_config().qos
                    &&& job.count == old(self).spec_config().count
                    &&& job.delay_units == old(self).spec_config().delay_units
                }
            },
            old(self).wf() ==> final(self).wf(),
    {
        if self.handle.is_some() {
            None
        } else {
            self.handle = Some(JobHandle::new());
            Some(
                PublishJob {
                    topic: self.config.topic.clone(),
                    qos: self.config.qos,
                    count: self.config.count,
                    delay_units: self.config.delay_units,
                },
            )
        }
    }

    /// Hands the worker's terminal result to the outstanding handle. Models
    /// the arrival, on the polling side, of the one message the worker sends
    /// when its run is over; each spawned job delivers exactly once, so the
    /// handle is still awaiting when this is called.
    pub fn deliver(&mut self, outcome: JobResult)
        requires
            old(self).awaiting(),
        ensures
            final(self).is_busy(),
            !final(self).awaiting(),
            final(self).pending_result() == Some(outcome),
            final(self).spec_config() == old(self).spec_config(),
            final(self).spec_last() == old(self).spec_last(),
            final(self).wf(),
    {
        let mut h = self.handle.take().unwrap();
        h.resolve(outcome);
        self.handle = Some(h);
    }

    /// One presentation tick: polls the outstanding handle, if any, without
    /// blocking. A tick while idle, or while the result is still pending,
    /// changes nothing; a tick that finds the result consumes it, stores it
    /// as the last known result, discards the handle, and re-enables the
    /// trigger.
    pub fn tick(&mut self)
        requires
            old(self).wf(),
        ensures
            final(self).wf(),
            final(self).spec_config() == old(self).spec_config(),
            !old(self).is_busy() ==> *final(self) == *old(self),
            old(self).is_busy() && old(self).pending_result() is None ==> *final(self) == *old(
                self,
            ),
            old(self).pending_result() matches Some(res) ==> {
                &&& !final(self).is_busy()
                &&& final(self).spec_trigger_state() is Enabled
                &&& final(self).spec_last() == Some(res)
            },
            old(self).pending_result() is None ==> final(self).spec_last() == old(
                self,
            ).spec_last(),
    {
        match self.handle.take() {
            None => {},
            Some(mut h) => {
                match h.try_take() {
                    Some(res) => {
                        self.last_result = Some(res);
                    },
                    None => {
                        self.handle = Some(h);
                    },
                }
            },
        }
    }
}

/// At most one job outstanding: the trigger is disabled exactly while a
/// handle exists, and `activate` starts a job only while the trigger is
/// enabled — an activation while disabled leaves the presenter untouched.
pub proof fn lemma_at_most_one_outstanding(p: Presenter)
    ensures
        p.spec_trigger_state() is Disabled <==> p.is_busy(),
        p.spec_trigger_state() is Enabled <==> !p.is_busy(),
        p.awaiting() ==> p.spec_trigger_state() is Disabled,
        p.pending_result() is Some ==> p.spec_trigger_state() is Disabled,
{
}

} // verus!
