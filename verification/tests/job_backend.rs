//! What a job worker decides.

use event_sorcery::dispatch::DeliveryPolicy;
use event_sorcery::entity::EventSourced;
use event_sorcery::job::{
    ClaimId, DeadReason, JobCommand, JobContext, JobError, JobFailure, JobId, JobKind, JobOutcome,
    JobState, WonClaim, WorkerId,
};
use event_sorcery::job_backend::{
    ack_command, acknowledgement, after_ack, after_claim, after_renewal, error_chain, job_context,
    later_millis, lease_delta, lease_millis, outcome_command, renewed_lease, run_report, AckReply,
    AckStep, JobWorkerConfig, PollStep, RunEnd,
};
use event_sorcery::job_store::{ClaimOutcome, LeaseRenewal};
use event_sorcery::lifecycle::LifecycleError;
use event_sorcery::predicate::{poll_order, poll_predicate, ColumnValue, Comparison, Term};
use event_sorcery::time::Delay;

fn ctx(attempt: u32) -> JobContext {
    JobContext {
        job_id: JobId(7),
        claim_seq: 2,
        claim_id: ClaimId("mine".to_string()),
        attempt,
        max_attempts: 5,
        delivery: DeliveryPolicy::default(),
    }
}

const NOW: (i64, u32) = (100, 250_999_999);

#[test]
fn defaults_suit_a_single_host() {
    let config = JobWorkerConfig::default();

    assert_eq!(config.poll_interval, Delay::from_millis(250));
    assert_eq!(config.scan_limit, 16);
    assert_eq!(config.max_concurrency, 8);
    assert_eq!(config.lease_duration, Delay::from_secs(30));
    assert_eq!(config.renew_interval, Delay::from_secs(10));
    assert_eq!(config.execution_timeout, Delay::from_secs(300));
    assert_eq!((config.max_attempts, config.max_claims), (5, 50));
    assert_eq!(config.delivery, DeliveryPolicy::default());
}

#[test]
fn leases_that_cannot_be_counted_fall_back() {
    let endless = Delay { secs: u64::MAX, nanos: 0 };

    assert_eq!(lease_millis(Delay { secs: 1, nanos: 999_999 }), 1_000);
    assert_eq!(lease_millis(endless), 30_000);
    assert_eq!(lease_delta(endless), Delay::from_secs(30));
    assert_eq!(lease_delta(Delay::from_secs(4)), Delay::from_secs(4));
    assert_eq!(later_millis(NOW, Delay { secs: 1, nanos: 1 }), 101_251);
    assert_eq!(later_millis((-2, 500_000_000), Delay::from_millis(1)), -1_499);
    assert_eq!(renewed_lease(&JobWorkerConfig::default(), NOW), 130_250);
}

#[test]
fn failures_are_retried_until_the_budget_is_used_up() {
    let config = JobWorkerConfig::default();
    let wait = Delay::from_secs(2);

    let command = ack_command(&config, NOW, wait, &ctx(3), false, "boom".to_string());
    assert!(matches!(
        command,
        JobCommand::RetrySchedule { claim_id, run_at: 102_250, attempt: 4, error }
            if claim_id.0 == "mine" && error == "boom"
    ));

    let command = ack_command(&config, NOW, wait, &ctx(4), false, "boom".to_string());
    assert!(ctx(4).is_final_attempt());
    assert!(matches!(
        command,
        JobCommand::Kill { reason: DeadReason::RetriesExhausted, error, .. } if error == "boom"
    ));

    let command = ack_command(&config, NOW, wait, &ctx(4), true, String::new());
    assert!(matches!(command, JobCommand::Succeed { .. }));
}

#[test]
fn reports_are_acknowledged_by_what_they_say() {
    let config = JobWorkerConfig::default();
    let wait = Delay::from_secs(2);
    let command = |report| outcome_command(&config, NOW, wait, &ctx(0), report);

    assert!(matches!(
        command(Ok(JobOutcome::Done(()))),
        JobCommand::Succeed { .. }
    ));
    assert!(matches!(
        command(Ok(JobOutcome::Defer(Delay::from_secs(5)))),
        JobCommand::Reschedule { run_at: 105_250, .. }
    ));
    assert!(matches!(
        command(Err(JobFailure::Terminal("no".to_string()))),
        JobCommand::Kill { reason: DeadReason::Rejected, .. }
    ));
    assert!(matches!(
        command(Err(JobFailure::Transient("later".to_string()))),
        JobCommand::RetrySchedule { attempt: 1, .. }
    ));
    assert!(
        acknowledgement(&config, NOW, wait, &ctx(0), true, Ok(JobOutcome::Done(()))).is_none()
    );
    assert!(
        acknowledgement(&config, NOW, wait, &ctx(0), false, Ok(JobOutcome::Done(()))).is_some()
    );
}

#[test]
fn a_reclaimed_job_refuses_the_acknowledgement() {
    let state = JobState::Claimed {
        kind: JobKind::new("k"),
        payload: serde_json::Value::Null,
        worker: WorkerId::new("w"),
        claim_id: ClaimId("theirs".to_string()),
        run_at: 0,
        attempt: 0,
        claims: 2,
    };
    let command = outcome_command(
        &JobWorkerConfig::default(),
        NOW,
        Delay::from_secs(1),
        &ctx(0),
        Ok(JobOutcome::Done(())),
    );

    assert!(matches!(state.transition(command), Err(JobError::Fenced)));
}

#[test]
fn runs_that_take_too_long_fail() {
    assert!(matches!(
        run_report(RunEnd::TimedOut("300s".to_string())),
        Err(JobFailure::Transient(error)) if error == "job execution exceeded 300s"
    ));
    assert!(matches!(
        run_report(RunEnd::Returned(Ok(JobOutcome::Done(())))),
        Ok(JobOutcome::Done(()))
    ));
}

#[test]
fn acknowledgements_are_sent_again_only_without_a_connection() {
    let fenced = || AckReply::Refused(LifecycleError::Apply(JobError::Fenced));

    assert_eq!(after_ack(AckReply::Recorded, true), AckStep::Done);
    assert_eq!(
        after_ack(fenced(), true),
        AckStep::Fenced { double_execution: true }
    );
    assert_eq!(
        after_ack(AckReply::Conflict, false),
        AckStep::Fenced { double_execution: false }
    );
    assert_eq!(
        after_ack(AckReply::Connection, true),
        AckStep::RetryAfter(Delay::from_millis(50))
    );
    assert_eq!(after_ack(AckReply::Deserialization, true), AckStep::GiveUp);
    assert_eq!(after_ack(AckReply::Unexpected, true), AckStep::GiveUp);
    assert_eq!(
        after_ack(
            AckReply::Refused(LifecycleError::EventCantOriginate {
                event: event_sorcery::job::JobEvent::Succeeded
            }),
            true
        ),
        AckStep::GiveUp
    );
}

#[test]
fn polls_go_on_until_a_job_is_won_or_a_claim_errs() {
    assert!(matches!(
        after_claim::<u8, ()>(Ok(ClaimOutcome::Won(3))),
        PollStep::Run(3)
    ));
    for passed in [
        ClaimOutcome::<u8>::Abandoned,
        ClaimOutcome::Contended,
        ClaimOutcome::Skip,
    ] {
        assert!(matches!(after_claim::<u8, ()>(Ok(passed)), PollStep::Next));
    }
    assert!(matches!(after_claim::<u8, ()>(Err(())), PollStep::Idle));
    assert!(after_renewal::<()>(&Ok(LeaseRenewal::Held)));
    assert!(after_renewal::<()>(&Err(())));
    assert!(!after_renewal::<()>(&Ok(LeaseRenewal::Lost)));
}

#[test]
fn contexts_carry_the_claim_and_the_budget() {
    let won = WonClaim {
        claim_seq: 4,
        claim_id: ClaimId("mine".to_string()),
        attempt: 2,
        args: serde_json::Value::Null,
    };

    let ctx = job_context(&JobWorkerConfig::default(), JobId(9), &won);

    assert_eq!(ctx.job_id(), JobId(9));
    assert_eq!((ctx.claim_seq, ctx.attempt, ctx.max_attempts), (4, 2, 5));
    assert_eq!(ctx.claim_id.0, "mine");
}

#[test]
fn error_messages_are_joined_from_the_outside_in() {
    let chain = |messages: &[&str]| {
        error_chain(&messages.iter().map(|message| message.to_string()).collect())
    };

    assert_eq!(chain(&["outer", "inner", "root"]), "outer: inner: root");
    assert_eq!(chain(&["alone"]), "alone");
    assert_eq!(chain(&["", "root"]), ": root");
    assert_eq!(chain(&[]), "");
}

fn term(column: &str, comparison: Comparison, value: Option<ColumnValue>) -> Term {
    Term {
        column: column.to_string(),
        comparison,
        value,
    }
}

fn text(value: &str) -> Option<ColumnValue> {
    Some(ColumnValue::Text(value.to_string()))
}

#[test]
fn polls_look_for_due_and_expired_jobs_of_the_kind() {
    let predicate = poll_predicate("send-email", 500);

    assert_eq!(
        predicate.any_of,
        vec![
            vec![
                term("kind", Comparison::Eq, text("send-email")),
                term("status", Comparison::Eq, text("pending")),
                term("run_at", Comparison::Le, Some(ColumnValue::Int(500))),
            ],
            vec![
                term("kind", Comparison::Eq, text("send-email")),
                term("status", Comparison::Eq, text("claimed")),
                term("lease_until", Comparison::Lt, Some(ColumnValue::Int(500))),
            ],
            vec![
                term("kind", Comparison::Eq, text("send-email")),
                term("status", Comparison::Eq, text("claimed")),
                term("lease_until", Comparison::IsNull, None),
            ],
        ]
    );
    let order = poll_order();
    assert_eq!((order.column.as_str(), order.ascending), ("run_at", true));
}
