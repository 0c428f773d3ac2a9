//! Durable jobs: their identity, their life, their claims and how they are enqueued.

use event_sorcery::dispatch::Effect;
use event_sorcery::entity::EventSourced;
use event_sorcery::identity::JobIdError;
use event_sorcery::job::{
    buffer, enqueue_request, enqueued_event, from_millis, pending_seed, plan_abandon, plan_claim,
    plan_claim_as, prepare_pending, prepare_request, resolve_run_at_ms, ClaimId, DeadReason,
    DispatchNotBuffered, EnqueueRequest, JobCommand, JobContext, JobError, JobEvent, JobId,
    JobKind, JobState, JobStoreError, Label, PendingJobs, PendingPush, StandaloneJob,
    WonClaim, WorkerId,
};
use event_sorcery::job_store::{ClaimDecision, ClaimRead};
use event_sorcery::lifecycle::Lifecycle;
use event_sorcery::time::Delay;
use serde_json::Value;

enum SendEmail {
    Welcome { address: String },
    Reminder { address: String },
}

impl StandaloneJob for SendEmail {
    type Input = ();
    type Output = ();
    type Error = std::convert::Infallible;

    const WORKER_NAME: &'static str = "send-email";
    const KIND: &'static str = "send-email";

    fn label(&self) -> Label {
        match self {
            Self::Welcome { address } => Label::new(format!("welcome:{address}")),
            Self::Reminder { address } => Label::new(format!("reminder:{address}")),
        }
    }

    fn encode(&self) -> Result<Value, String> {
        match self {
            Self::Welcome { address } => Ok(Value::String(address.clone())),
            Self::Reminder { .. } => Err("no reminders".to_string()),
        }
    }
}

fn empty_object() -> Value {
    Value::Object(serde_json::Map::new())
}

fn at(secs: i64) -> i64 {
    secs * 1000
}

fn claimed(claim_id: &str, claims: u32) -> JobState {
    JobState::Claimed {
        kind: JobKind::new("send-email"),
        payload: empty_object(),
        worker: WorkerId::new("w"),
        claim_id: ClaimId(claim_id.to_string()),
        run_at: at(0),
        attempt: 0,
        claims,
    }
}

fn pending(run_at: i64, attempt: u32, claims: u32) -> JobState {
    JobState::Pending {
        kind: JobKind::new("send-email"),
        payload: empty_object(),
        run_at,
        attempt,
        claims,
    }
}

fn push(payload: Result<Value, String>, delay: Option<Delay>) -> PendingPush {
    PendingPush {
        job_id: JobId::new(),
        kind: JobKind::new("test-pending"),
        payload,
        delay,
    }
}

fn row(version: i64, lease_until_ms: Option<i64>) -> Option<ClaimRead> {
    Some(ClaimRead {
        version,
        payload: String::new(),
        lease_until_ms,
    })
}

#[test]
fn jobs_log_the_same_failure_unless_they_say_otherwise() {
    assert_eq!(SendEmail::TERMINAL_FAILURE_MSG, "Job failed after retries");
}

#[test]
fn label_reflects_variant_and_renders_via_display() {
    let welcome = SendEmail::Welcome {
        address: "a@example.com".to_string(),
    };
    let reminder = SendEmail::Reminder {
        address: "b@example.com".to_string(),
    };

    assert_eq!(welcome.label().to_string(), "welcome:a@example.com");
    assert_eq!(reminder.label().to_string(), "reminder:b@example.com");
}

#[test]
fn committed_batch_preserves_jobs_buffered_after_prepare() {
    let mut scope = Some(PendingJobs::new());
    let committed_push = push(Ok(empty_object()), None);
    let committed_job_id = committed_push.job_id;
    assert!(buffer(&mut scope, committed_push).is_ok());

    let Ok(mut prepared) = prepare_pending(&scope) else {
        panic!("the batch must be prepared");
    };
    let committed = prepared.take_requests();
    assert_eq!(committed.len(), 1);
    assert_eq!(committed[0].job_id, committed_job_id);

    let later_push = push(Ok(empty_object()), None);
    let later_job_id = later_push.job_id;
    assert!(buffer(&mut scope, later_push).is_ok());

    prepared.mark_committed(&mut scope);

    let Ok(mut remaining) = prepare_pending(&scope) else {
        panic!("the rest must be prepared");
    };
    let remaining = remaining.take_requests();
    assert_eq!(remaining.len(), 1);
    assert_eq!(remaining[0].job_id, later_job_id);
}

#[test]
fn jobs_are_buffered_only_while_a_command_runs() {
    let mut scope = None;

    assert_eq!(
        buffer(&mut scope, push(Ok(empty_object()), None)),
        Err(DispatchNotBuffered)
    );
    let Ok(mut prepared) = prepare_pending(&scope) else {
        panic!("without a command there is nothing to prepare");
    };
    assert!(prepared.take_requests().is_empty());
}

#[test]
fn a_batch_with_one_bad_job_is_refused_as_a_whole() {
    let mut scope = Some(PendingJobs::new());
    assert!(buffer(&mut scope, push(Ok(empty_object()), None)).is_ok());
    assert!(buffer(&mut scope, push(Err("broken".to_string()), None)).is_ok());

    assert!(matches!(
        prepare_pending(&scope),
        Err(JobStoreError::Encode(message)) if message == "broken"
    ));
}

#[test]
fn transition_fences_a_foreign_claim_and_succeeds_for_the_owner() {
    let state = claimed("claim-a", 1);

    let fenced = state.transition(JobCommand::Succeed {
        claim_id: ClaimId("claim-b".to_string()),
    });
    assert!(matches!(fenced, Err(JobError::Fenced)));

    let owned = state.transition(JobCommand::Succeed {
        claim_id: ClaimId("claim-a".to_string()),
    });
    let Ok(Effect::Events(events)) = owned else {
        panic!("expected events");
    };
    assert_eq!(events, vec![JobEvent::Succeeded]);
}

#[test]
fn evolve_claim_increments_claims_and_drops_the_lease() {
    let pending = JobState::Pending {
        kind: JobKind::new("send-email"),
        payload: empty_object(),
        run_at: at(0),
        attempt: 0,
        claims: 0,
    };
    let event = JobEvent::Claimed {
        worker: WorkerId::new("w"),
        claim_id: ClaimId("c".to_string()),
        lease_until: at(100),
    };

    let next = JobState::evolve(&pending, &event).unwrap().unwrap();
    let JobState::Claimed {
        claims, claim_id, ..
    } = next
    else {
        panic!("expected Claimed");
    };
    assert_eq!(claims, 1);
    assert_eq!(claim_id, ClaimId("c".to_string()));
}

#[test]
fn evolve_retry_preserves_claims_and_returns_to_pending() {
    let state = claimed("c", 3);
    let event = JobEvent::RetryScheduled {
        run_at: at(50),
        attempt: 1,
        error: "boom".to_string(),
    };

    let next = JobState::evolve(&state, &event).unwrap().unwrap();
    let JobState::Pending {
        claims, attempt, ..
    } = next
    else {
        panic!("expected Pending");
    };
    assert_eq!(claims, 3);
    assert_eq!(attempt, 1);
}

#[test]
fn a_deferral_resets_the_claims_and_keeps_the_attempts() {
    let state = JobState::evolve(&claimed("c", 3), &JobEvent::Rescheduled { run_at: at(9) });

    assert_eq!(state.unwrap(), Some(pending(at(9), 0, 0)));
}

#[test]
fn finished_jobs_take_no_event() {
    let dead = JobState::Dead {
        reason: DeadReason::Abandoned,
    };

    for state in [JobState::Done, dead] {
        assert_eq!(JobState::evolve(&state, &JobEvent::Succeeded), Ok(None));
        assert!(matches!(
            state.transition(JobCommand::Succeed {
                claim_id: ClaimId("c".to_string())
            }),
            Err(JobError::Fenced)
        ));
    }
    assert_eq!(JobState::originate(&JobEvent::Succeeded), None);
}

#[test]
fn a_runnable_job_is_claimed_at_the_next_sequence() {
    let decision = plan_claim_as(
        row(1, None),
        Some(Lifecycle::Live(pending(1_000, 2, 4))),
        &WorkerId::new("w"),
        1_000,
        30_000,
        50,
        ClaimId("claim".to_string()),
        7,
    );

    let ClaimDecision::Claim {
        event,
        sequence,
        state,
        lease_until_ms,
        won,
    } = decision
    else {
        panic!("expected a claim");
    };
    assert_eq!(sequence, 2);
    assert_eq!(lease_until_ms, 31_000);
    let JobEvent::Claimed {
        claim_id,
        lease_until,
        ..
    } = &event
    else {
        panic!("expected a Claimed event");
    };
    assert_eq!(claim_id.0, "claim");
    assert_eq!(*lease_until, 31_000);
    assert_eq!(
        JobState::evolve(&pending(1_000, 2, 4), &event).unwrap(),
        Some(state)
    );
    let WonClaim {
        claim_seq,
        claim_id,
        attempt,
        args,
    } = won;
    assert_eq!((claim_seq, attempt), (2, 2));
    assert_eq!(claim_id.0, "claim");
    assert_eq!(args, empty_object());
}

#[test]
fn a_lease_beyond_all_instants_is_recorded_as_the_fallback() {
    let decision = plan_claim_as(
        row(1, None),
        Some(Lifecycle::Live(pending(0, 0, 0))),
        &WorkerId::new("w"),
        0,
        i64::MAX,
        50,
        ClaimId("claim".to_string()),
        7,
    );

    assert!(matches!(
        decision,
        ClaimDecision::Claim {
            event: JobEvent::Claimed { lease_until: 7, .. },
            lease_until_ms: i64::MAX,
            ..
        }
    ));
}

#[test]
fn only_due_and_unleased_jobs_are_claimed() {
    let claim = |read, state, now_ms| {
        plan_claim(read, state, &WorkerId::new("w"), now_ms, 10, 50)
    };
    let live = |state| Some(Lifecycle::Live(state));

    assert!(matches!(claim(None, live(pending(0, 0, 0)), 5), ClaimDecision::Skip));
    assert!(matches!(claim(row(1, None), None, 5), ClaimDecision::Skip));
    assert!(matches!(
        claim(row(1, None), Some(Lifecycle::Uninitialized), 5),
        ClaimDecision::Skip
    ));
    assert!(matches!(
        claim(row(1, None), live(pending(6, 0, 0)), 5),
        ClaimDecision::Skip
    ));
    assert!(matches!(
        claim(row(1, Some(5)), live(claimed("c", 1)), 5),
        ClaimDecision::Skip
    ));
    assert!(matches!(
        claim(row(1, Some(4)), live(claimed("c", 1)), 5),
        ClaimDecision::Claim { .. }
    ));
    assert!(matches!(
        claim(row(1, None), live(claimed("c", 1)), 5),
        ClaimDecision::Claim { .. }
    ));
    assert!(matches!(
        claim(row(1, None), live(JobState::Done), 5),
        ClaimDecision::Skip
    ));
}

#[test]
fn a_job_that_was_claimed_too_often_is_given_up() {
    let decision = plan_claim(
        row(4, None),
        Some(Lifecycle::Live(pending(0, 0, 3))),
        &WorkerId::new("w"),
        5,
        10,
        3,
    );

    let ClaimDecision::Abandon {
        event,
        sequence,
        state,
    } = decision
    else {
        panic!("expected the job to be given up");
    };
    assert_eq!(sequence, 5);
    assert!(matches!(
        event,
        JobEvent::Dead {
            reason: DeadReason::Abandoned,
            ..
        }
    ));
    assert_eq!(
        state,
        JobState::Dead {
            reason: DeadReason::Abandoned
        }
    );
    assert!(matches!(
        plan_abandon(9),
        ClaimDecision::Abandon { sequence: 9, .. }
    ));
}

#[test]
fn first_runs_are_resolved_to_milliseconds() {
    assert!(matches!(resolve_run_at_ms((10, 999_999_999), None), Ok(10_999)));
    assert!(matches!(
        resolve_run_at_ms((10, 600_000_000), Some(Delay { secs: 1, nanos: 500_000_000 })),
        Ok(12_100)
    ));
    assert!(matches!(
        resolve_run_at_ms((10, 0), Some(Delay { secs: u64::MAX, nanos: 0 })),
        Err(JobStoreError::DelayOverflow)
    ));
    assert!(matches!(
        resolve_run_at_ms((10, 0), Some(Delay { secs: 8_210_266_876_790, nanos: 0 })),
        Err(JobStoreError::DelayOverflow)
    ));
}

#[test]
fn enqueued_jobs_start_pending_at_representable_instants() {
    let request = |run_at_ms| EnqueueRequest {
        job_id: JobId(1),
        kind: JobKind::new("send-email"),
        payload: empty_object(),
        run_at_ms,
    };

    let event = enqueued_event(&request(1_000)).unwrap();
    assert_eq!(JobState::originate(&event), Some(pending(1_000, 0, 0)));
    assert_eq!(pending_seed(&request(1_000)).unwrap(), pending(1_000, 0, 0));
    assert!(matches!(
        enqueued_event(&request(i64::MAX)),
        Err(JobStoreError::InvalidInstant(i64::MAX))
    ));
    assert!(matches!(
        pending_seed(&request(i64::MIN)),
        Err(JobStoreError::InvalidInstant(i64::MIN))
    ));
    assert_eq!(from_millis(8_210_266_876_799_999, 1), 8_210_266_876_799_999);
    assert_eq!(from_millis(8_210_266_876_800_000, 1), 1);
}

#[test]
fn standalone_jobs_get_a_request_of_their_own() {
    let welcome = SendEmail::Welcome {
        address: "a@example.com".to_string(),
    };
    let reminder = SendEmail::Reminder {
        address: "b@example.com".to_string(),
    };

    let now = enqueue_request(&welcome, None).unwrap();
    let later = enqueue_request(&welcome, Some(Delay::from_secs(3_600))).unwrap();

    assert_eq!(now.kind, JobKind::new("send-email"));
    assert_eq!(now.payload, Value::String("a@example.com".to_string()));
    assert_ne!(now.job_id, later.job_id);
    assert!(later.run_at_ms >= now.run_at_ms + 3_600_000);
    assert!(matches!(
        enqueue_request(&reminder, None),
        Err(JobStoreError::Encode(message)) if message == "no reminders"
    ));
    assert!(matches!(
        prepare_request(&push(Ok(Value::Null), Some(Delay { secs: u64::MAX, nanos: 0 })), (0, 0)),
        Err(JobStoreError::DelayOverflow)
    ));
}

#[test]
fn identities_are_read_back_from_their_text() {
    let id = JobId::new();
    let text = id.to_string();

    assert_eq!(text.len(), 26);
    assert_eq!(JobId::parse(&text), Ok(id));
    assert_eq!(JobId(0).to_string(), "00000000000000000000000000");
    assert_eq!(JobId::default(), JobId(0));
    assert_eq!(JobId::parse("short"), Err(JobIdError::InvalidLength));
    assert_eq!(
        JobId::parse("0000000000000000000000000!"),
        Err(JobIdError::InvalidChar)
    );
}

#[test]
fn identities_are_written_in_base_32() {
    let id = JobId(0x4141_4141_4141_4141_4141_4141_4141_4141);
    assert_eq!(id.to_string(), "21850M2GA1850M2GA1850M2GA1");
    assert_eq!(JobId::parse("21850m2ga1850m2ga1850m2ga1"), Ok(id));
    assert_eq!(JobId(u128::MAX).to_string(), "7ZZZZZZZZZZZZZZZZZZZZZZZZZ");

    // 26 digits hold two bits more than an identity.
    assert_eq!(
        JobId::parse("ZZZZZZZZZZZZZZZZZZZZZZZZZZ"),
        Ok(JobId(u128::MAX))
    );
    assert_eq!(
        JobId::parse("80000000000000000000000001"),
        Ok(JobId(1))
    );

    // The length is counted in bytes.
    assert_eq!(
        JobId::parse("000000000000000000000000\u{e9}"),
        Err(JobIdError::InvalidChar)
    );
    assert_eq!(
        JobId::parse("0000000000000000000000000\u{e9}"),
        Err(JobIdError::InvalidLength)
    );
    for letter in ["I", "L", "O", "U"] {
        let text = format!("0000000000000000000000000{letter}");
        assert_eq!(JobId::parse(&text), Err(JobIdError::InvalidChar));
    }
}

#[test]
fn workers_and_claims_are_told_apart() {
    let worker = WorkerId::new("mailer");

    assert!(worker.0.starts_with("mailer:"));
    assert!(JobId::parse(&worker.0["mailer:".len()..]).is_ok());
    assert!(JobId::parse(&ClaimId::new().0).is_ok());
    assert_eq!(Label::new("mailer").to_string(), "mailer");
    assert_ne!(worker, WorkerId::new("mailer"));
    assert_ne!(ClaimId::new(), ClaimId::new());
}

#[test]
fn contexts_know_the_first_and_the_final_run() {
    let ctx = JobContext {
        claim_seq: 2,
        attempt: 4,
        max_attempts: 5,
        ..JobContext::default()
    };

    assert!(ctx.is_first_execution());
    assert!(ctx.is_final_attempt());
    assert_eq!(ctx.attempt(), 4);
    assert_eq!(ctx.job_id(), JobId(0));
    assert!(!JobContext::default().is_first_execution());
    assert!(!JobContext::default().is_final_attempt());
    assert!(
        JobContext {
            attempt: u32::MAX,
            max_attempts: u32::MAX,
            ..JobContext::default()
        }
        .is_final_attempt()
    );
}

#[test]
fn job_events_have_their_stored_names() {
    let event = JobEvent::Rescheduled { run_at: 1 };

    assert_eq!(event.event_type(), event.stored_name());
    assert_eq!(event.event_version(), "1.0");
    assert_ne!(event.stored_name(), JobEvent::Succeeded.stored_name());
}

#[test]
fn claims_count_up_to_the_limit_and_know_the_first_run() {
    let worker = WorkerId::new("mailer");
    let decide = |version: i64, claims: u32| {
        plan_claim(
            row(version, None),
            Some(Lifecycle::Live(pending(at(0), 0, claims))),
            &worker,
            at(10),
            1_000,
            3,
        )
    };

    let ClaimDecision::Claim { state, won, .. } = decide(1, 2) else {
        panic!("expected a claim");
    };
    assert!(matches!(state, JobState::Claimed { claims: 3, .. }));
    let first = JobContext {
        claim_seq: won.claim_seq,
        ..JobContext::default()
    };
    assert!(first.is_first_execution());

    let ClaimDecision::Claim { won, .. } = decide(2, 0) else {
        panic!("expected a claim");
    };
    let later = JobContext {
        claim_seq: won.claim_seq,
        ..JobContext::default()
    };
    assert!(!later.is_first_execution());

    assert!(matches!(decide(5, 3), ClaimDecision::Abandon { .. }));
}

#[test]
fn commands_are_copied_whole() {
    let command = JobCommand::Kill {
        claim_id: ClaimId("c1".to_string()),
        reason: DeadReason::Rejected,
        error: "no".to_string(),
    };

    let JobCommand::Kill { claim_id, reason, error } = command.clone() else {
        panic!("expected the same command");
    };
    assert_eq!(&claim_id, command.claim_id());
    assert_eq!(reason, DeadReason::Rejected);
    assert_eq!(error, "no");
}
