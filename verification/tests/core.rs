use remote_trigger::handle::JobHandle;
use remote_trigger::inbox::InboxLog;
use remote_trigger::job::{build_payload, JobResult, PublishJob, QosLevel};
use remote_trigger::presenter::{Presenter, TriggerState};
use remote_trigger::runner::{plan, Action};
use remote_trigger::text::decimal_string;

fn three_step_job() -> PublishJob {
    PublishJob {
        topic: "remote/homepc".to_string(),
        qos: QosLevel::AtMostOnce,
        count: 3,
        delay_units: 1,
    }
}

#[test]
fn payload_zero() {
    assert_eq!(build_payload(0).as_str(), "{\"test\": \"Hello world 0.\"}");
}

#[test]
fn payload_three() {
    assert_eq!(build_payload(3).as_str(), "{\"test\": \"Hello world 3.\"}");
}

#[test]
fn payload_multi_digit() {
    assert_eq!(
        build_payload(12305).as_str(),
        "{\"test\": \"Hello world 12305.\"}"
    );
}

#[test]
fn decimal_rendering() {
    assert_eq!(decimal_string(0).as_str(), "0");
    assert_eq!(decimal_string(9).as_str(), "9");
    assert_eq!(decimal_string(10).as_str(), "10");
    assert_eq!(decimal_string(907).as_str(), "907");
    assert_eq!(decimal_string(u64::MAX).as_str(), "18446744073709551615");
}

#[test]
fn plan_publishes_in_index_order() {
    let schedule = plan(&three_step_job());
    assert_eq!(schedule.len(), 8);
    let mut seen: Vec<u64> = Vec::new();
    for action in &schedule {
        if let Action::Publish { index, payload } = action {
            seen.push(*index);
            assert_eq!(
                payload.as_str(),
                format!("{{\"test\": \"Hello world {}.\"}}", index).as_str()
            );
        }
    }
    assert_eq!(seen, vec![0, 1, 2]);
}

#[test]
fn plan_interleaves_sleeps_and_ends_with_resolution() {
    let schedule = plan(&three_step_job());
    for (k, action) in schedule.iter().enumerate() {
        match action {
            Action::Publish { .. } => assert!(k < 6 && k % 2 == 0),
            Action::Sleep { units } => {
                assert!(k < 6 && k % 2 == 1);
                assert_eq!(*units, 1);
            }
            Action::Unsubscribe => assert_eq!(k, 6),
            Action::Resolve { outcome } => {
                assert_eq!(k, 7);
                match outcome {
                    JobResult::Success(m) => assert_eq!(m.as_str(), "done"),
                    JobResult::Failure(_) => panic!("terminal outcome must be a success"),
                }
            }
        }
    }
}

#[test]
fn plan_zero_steps_still_resolves() {
    let job = PublishJob {
        topic: "remote/homepc".to_string(),
        qos: QosLevel::AtMostOnce,
        count: 0,
        delay_units: 1,
    };
    let schedule = plan(&job);
    assert_eq!(schedule.len(), 2);
    assert!(matches!(schedule[0], Action::Unsubscribe));
    assert!(matches!(
        &schedule[1],
        Action::Resolve { outcome: JobResult::Success(m) } if m.as_str() == "done"
    ));
}

#[test]
fn handle_poll_before_resolution_is_not_yet() {
    let mut h = JobHandle::new();
    assert!(h.try_take().is_none());
    assert!(h.try_take().is_none());
}

#[test]
fn handle_yields_result_exactly_once() {
    let mut h = JobHandle::new();
    h.resolve(JobResult::Success("done".to_string()));
    let first = h.try_take();
    assert!(matches!(&first, Some(JobResult::Success(m)) if m.as_str() == "done"));
    assert!(h.try_take().is_none());
    assert!(h.try_take().is_none());
}

#[test]
fn trigger_cycle_with_three_steps() {
    let mut presenter = Presenter::new(three_step_job());
    let mut inbox = InboxLog::new();
    assert_eq!(presenter.trigger_state(), TriggerState::Enabled);
    assert!(presenter.last_result().is_none());

    let job = presenter.activate().expect("idle presenter must hand out a job");
    assert_eq!(job.topic.as_str(), "remote/homepc");
    assert_eq!(job.count, 3);
    assert_eq!(job.delay_units, 1);
    assert_eq!(presenter.trigger_state(), TriggerState::Disabled);

    // The worker has not finished yet: polling changes nothing.
    presenter.tick();
    assert_eq!(presenter.trigger_state(), TriggerState::Disabled);
    assert!(presenter.last_result().is_none());

    // The worker walks the schedule to its resolution and delivers it.
    let schedule = plan(&job);
    let mut outcome = None;
    for action in schedule {
        if let Action::Resolve { outcome: o } = action {
            outcome = Some(o);
        }
    }
    presenter.deliver(outcome.expect("a schedule always ends in a resolution"));

    // The next poll consumes it: the trigger re-enables and the status
    // label reads the success marker.
    presenter.tick();
    assert_eq!(presenter.trigger_state(), TriggerState::Enabled);
    match presenter.last_result() {
        Some(JobResult::Success(m)) => assert_eq!(m.as_str(), "done"),
        _ => panic!("the job must end in a success"),
    }

    // The job's own publishes never touch the inbox log.
    assert_eq!(inbox.len(), 0);
    inbox.append("inbound line".to_string());
    assert_eq!(inbox.len(), 1);
}

#[test]
fn second_activation_is_a_no_op() {
    let mut presenter = Presenter::new(three_step_job());
    let first = presenter.activate();
    let second = presenter.activate();
    assert!(first.is_some());
    assert!(second.is_none());
    assert_eq!(presenter.trigger_state(), TriggerState::Disabled);

    // Only one job runs: only the first activation yields a schedule, and
    // that schedule publishes exactly three times, not six.
    let schedule = plan(&first.unwrap());
    let publishes = schedule
        .iter()
        .filter(|a| matches!(a, Action::Publish { .. }))
        .count();
    assert_eq!(publishes, 3);

    // A no-op activation leaves the presenter able to finish the first job.
    presenter.deliver(JobResult::Success("done".to_string()));
    presenter.tick();
    assert_eq!(presenter.trigger_state(), TriggerState::Enabled);
}

#[test]
fn repeated_cycles_reuse_the_configuration() {
    let mut presenter = Presenter::new(three_step_job());
    for _ in 0..3 {
        let job = presenter.activate().expect("idle presenter must hand out a job");
        assert_eq!(job.topic.as_str(), "remote/homepc");
        presenter.deliver(JobResult::Success("done".to_string()));
        presenter.tick();
        assert_eq!(presenter.trigger_state(), TriggerState::Enabled);
    }
}

#[test]
fn inbox_renders_lines_in_arrival_order() {
    let mut inbox = InboxLog::new();
    assert_eq!(inbox.render().as_str(), "");
    inbox.append("first".to_string());
    inbox.append("second".to_string());
    assert_eq!(inbox.len(), 2);
    assert_eq!(inbox.entry(0).as_str(), "first");
    assert_eq!(inbox.entry(1).as_str(), "second");
    assert_eq!(inbox.render().as_str(), "first\nsecond\n");
}
