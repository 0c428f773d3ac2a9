//! The job kernel on concrete records.

use event_sorcery::kernel::{
    AppendConflict, ClaimVerdict, EnqueueVerdict, JobError, acknowledge, append_check, claim, dead_letter,
    defer, enqueue, exhaust, retry,
};
use event_sorcery::model::{
    AttemptCount, ClaimBudget, ClaimCount, DeadReason, Decision, ExpectedVersion, Instant,
    InvalidLeaseWindow, JobPayload, JobRecord, JobStatus, LeaseToken, LeaseWindow, Mutation,
    StreamVersion,
};

#[test]
fn append_check_accepts_only_the_current_version() {
    let version = ExpectedVersion::At(StreamVersion::new(7));

    assert_eq!(append_check(version, version), Ok(()));
    assert_eq!(
        append_check(ExpectedVersion::NoStream, version),
        Err(AppendConflict {
            expected: ExpectedVersion::NoStream,
            actual: version,
        })
    );
}

#[test]
fn enqueue_creates_the_requested_initial_state() {
    let ready_payload = JobPayload::new([1, 2, 3]);
    let scheduled_payload = JobPayload::new([4, 5, 6]);
    let run_at = Instant::from_millis(1_000);

    let ready = enqueue(ready_payload.clone(), None, None);
    let scheduled = enqueue(scheduled_payload.clone(), Some(run_at), None);

    assert_eq!(
        ready,
        Ok(Decision::new(
            EnqueueVerdict::Enqueued,
            Mutation::Changed(JobRecord::enqueued(ready_payload, None)),
        ))
    );
    assert_eq!(
        scheduled,
        Ok(Decision::new(
            EnqueueVerdict::Enqueued,
            Mutation::Changed(JobRecord::enqueued(scheduled_payload, Some(run_at),)),
        ))
    );
}

#[test]
fn enqueue_absorbs_an_identical_payload_and_rejects_a_different_one() {
    let payload = JobPayload::new([1, 2, 3]);
    let record = JobRecord::enqueued(payload.clone(), None);

    let duplicate = enqueue(
        payload,
        Some(Instant::from_millis(9_000)),
        Some(record.clone()),
    );
    let mismatch = enqueue(JobPayload::new([9]), None, Some(record.clone()));

    assert_eq!(
        duplicate,
        Ok(Decision::new(
            EnqueueVerdict::AlreadyEnqueued,
            Mutation::Unchanged(record),
        ))
    );
    assert_eq!(mismatch, Err(JobError::PayloadMismatch));
}

#[test]
fn lease_window_requires_a_strictly_increasing_interval() {
    let instant = Instant::from_millis(100);

    assert_eq!(LeaseWindow::new(instant, instant), Err(InvalidLeaseWindow));
    assert_eq!(
        LeaseWindow::new(instant, Instant::from_millis(99)),
        Err(InvalidLeaseWindow)
    );
    assert!(LeaseWindow::new(instant, Instant::from_millis(101)).is_ok());
}

#[test]
fn claim_enforces_runnability_and_terminal_state_before_counters() {
    let window = valid_window(100, 200);
    let budget = ClaimBudget::new(10);

    assert_eq!(claim(window, budget, None), Err(JobError::NotFound));
    assert_eq!(
        claim(
            window,
            budget,
            Some(record(JobStatus::Completed, u64::MAX, 0, u64::MAX,)),
        ),
        Err(JobError::AlreadyCompleted)
    );
    assert_eq!(
        claim(
            window,
            budget,
            Some(record(
                JobStatus::Scheduled(Instant::from_millis(101)),
                0,
                0,
                0,
            )),
        ),
        Err(JobError::NotRunnable {
            run_at: Instant::from_millis(101),
        })
    );
    assert_eq!(
        claim(
            window,
            budget,
            Some(record(
                JobStatus::Leased(Instant::from_millis(101)),
                0,
                0,
                0,
            )),
        ),
        Err(JobError::LeaseUnavailable {
            expires: Instant::from_millis(101),
        })
    );
}

#[test]
fn claim_abandons_over_budget_before_checking_token_exhaustion() {
    let window = valid_window(100, 200);
    let current = record(JobStatus::Ready, u64::MAX, 2, 3);
    let expected = JobRecord::new(
        current.payload().clone(),
        JobStatus::DeadLettered(DeadReason::Abandoned),
        LeaseToken::new(u64::MAX),
        AttemptCount::new(2),
        ClaimCount::new(4),
    );

    assert_eq!(
        claim(window, ClaimBudget::new(3), Some(current)),
        Ok(Decision::new(
            ClaimVerdict::Abandon,
            Mutation::Changed(expected),
        ))
    );
    assert_eq!(
        claim(
            window,
            ClaimBudget::new(4),
            Some(record(JobStatus::Ready, u64::MAX, 2, 3)),
        ),
        Err(JobError::LeaseTokenExhausted)
    );
}

#[test]
fn claim_increments_only_the_token_and_claim_count() {
    let window = valid_window(100, 200);
    let current = record(JobStatus::Ready, 4, 2, 3);
    let payload = current.payload().clone();
    let claimed = JobRecord::new(
        payload.clone(),
        JobStatus::Leased(window.end()),
        LeaseToken::new(5),
        AttemptCount::new(2),
        ClaimCount::new(4),
    );

    assert_eq!(
        claim(window, ClaimBudget::new(4), Some(current)),
        Ok(Decision::new(
            ClaimVerdict::Claimed {
                token: LeaseToken::new(5),
                attempts: AttemptCount::new(2),
                payload,
            },
            Mutation::Changed(claimed),
        ))
    );
}

#[test]
fn acknowledge_is_fenced_and_idempotent_after_completion() {
    let token = LeaseToken::new(3);
    let leased = record(
        JobStatus::Leased(Instant::from_millis(200)),
        token.get(),
        2,
        4,
    );
    let completed = record(JobStatus::Completed, token.get(), 2, 4);

    assert_eq!(
        acknowledge(LeaseToken::new(2), Some(leased.clone())),
        Err(JobError::LeaseLost {
            requested: LeaseToken::new(2),
            held: token,
        })
    );
    assert_eq!(
        acknowledge(token, Some(leased)),
        Ok(Mutation::Changed(completed.clone()))
    );
    assert_eq!(
        acknowledge(token, Some(completed.clone())),
        Ok(Mutation::Unchanged(completed))
    );
}

#[test]
fn retry_counts_a_failure_while_defer_resets_only_claims() {
    let token = LeaseToken::new(3);
    let run_at = Instant::from_millis(500);
    let leased = record(
        JobStatus::Leased(Instant::from_millis(200)),
        token.get(),
        2,
        4,
    );

    assert_eq!(
        retry(token, run_at, Some(leased.clone())),
        Ok(Decision::new(
            AttemptCount::new(3),
            Mutation::Changed(record(JobStatus::Scheduled(run_at), 3, 3, 4)),
        ))
    );
    assert_eq!(
        defer(token, run_at, Some(leased)),
        Ok(Mutation::Changed(record(
            JobStatus::Scheduled(run_at),
            3,
            2,
            0,
        )))
    );
    assert_eq!(
        retry(
            token,
            run_at,
            Some(record(
                JobStatus::Leased(Instant::from_millis(200)),
                3,
                u64::MAX,
                4,
            )),
        ),
        Err(JobError::AttemptCountExhausted)
    );
}

#[test]
fn dead_letter_is_reason_idempotent_and_exhaust_records_the_failure() {
    let token = LeaseToken::new(3);
    let leased = record(
        JobStatus::Leased(Instant::from_millis(200)),
        token.get(),
        2,
        4,
    );
    let rejected = record(
        JobStatus::DeadLettered(DeadReason::Rejected),
        token.get(),
        2,
        4,
    );

    assert_eq!(
        dead_letter(token, DeadReason::Rejected, Some(leased.clone())),
        Ok(Mutation::Changed(rejected.clone()))
    );
    assert_eq!(
        dead_letter(token, DeadReason::Rejected, Some(rejected.clone())),
        Ok(Mutation::Unchanged(rejected))
    );
    assert_eq!(
        exhaust(token, Some(leased)),
        Ok(Decision::new(
            AttemptCount::new(3),
            Mutation::Changed(record(
                JobStatus::DeadLettered(DeadReason::RetriesExhausted),
                3,
                3,
                4,
            )),
        ))
    );
}

fn valid_window(start: u64, end: u64) -> LeaseWindow {
    let result = LeaseWindow::new(Instant::from_millis(start), Instant::from_millis(end));
    let Ok(window) = result else {
        panic!("test lease window must be valid")
    };
    window
}

fn record(status: JobStatus, token: u64, attempts: u64, claims: u64) -> JobRecord {
    JobRecord::new(
        JobPayload::new([1, 2, 3]),
        status,
        LeaseToken::new(token),
        AttemptCount::new(attempts),
        ClaimCount::new(claims),
    )
}
#[test]
fn stale_tokens_are_refused_by_every_settlement() {
    let stale = LeaseToken::new(2);
    let run_at = Instant::from_millis(500);
    let leased = record(JobStatus::Leased(Instant::from_millis(200)), 3, 2, 4);
    let lost = JobError::LeaseLost {
        requested: stale,
        held: LeaseToken::new(3),
    };

    assert_eq!(retry(stale, run_at, Some(leased.clone())), Err(lost));
    assert_eq!(defer(stale, run_at, Some(leased.clone())), Err(lost));
    assert_eq!(
        dead_letter(stale, DeadReason::Rejected, Some(leased.clone())),
        Err(lost)
    );
    assert_eq!(exhaust(stale, Some(leased)), Err(lost));
}

#[test]
fn claims_and_counters_run_out() {
    let window = valid_window(100, 200);

    assert_eq!(
        claim(
            window,
            ClaimBudget::new(u64::MAX),
            Some(record(JobStatus::Ready, 0, 0, u64::MAX)),
        ),
        Err(JobError::ClaimCountExhausted)
    );
    assert_eq!(
        claim(
            window,
            ClaimBudget::new(3),
            Some(record(
                JobStatus::DeadLettered(DeadReason::Rejected),
                0,
                0,
                0
            )),
        ),
        Err(JobError::AlreadyDeadLettered(DeadReason::Rejected))
    );
}

#[test]
fn an_expired_lease_may_be_claimed_again() {
    let window = valid_window(100, 200);
    let current = record(JobStatus::Leased(Instant::from_millis(100)), 7, 1, 1);

    let Ok(decision) = claim(window, ClaimBudget::new(9), Some(current)) else {
        panic!("an expired lease must be claimable");
    };

    let (verdict, mutation) = decision.into_parts();
    assert!(matches!(verdict, ClaimVerdict::Claimed { token, .. } if token == LeaseToken::new(8)));
    assert!(matches!(mutation, Mutation::Changed(next) if next.claims() == ClaimCount::new(2)));
}
