//! Decisions on a single job: who may hold it, and what becomes of it.
//!
//! Every operation takes the record that the store holds and says what to store
//! in its place. A lease is fenced by its token: whoever holds an older token
//! than the record is refused.

use vstd::prelude::*;

use crate::model::{
    AttemptCount, ClaimBudget, ClaimCount, DeadReason, Decision, ExpectedVersion, Instant,
    InvalidLeaseWindow, JobPayload, JobRecord, JobRecordView, JobStatus, LeaseToken, LeaseWindow,
    LeaseWindowView, Mutation,
};

verus! {

/// A writer expected another version than the stream has.
#[derive(Clone, Copy, Debug, Eq, PartialEq, Structural)]
pub struct AppendConflict {
    pub expected: ExpectedVersion,
    pub actual: ExpectedVersion,
}

impl AppendConflict {
    pub fn expected(self) -> (expected: ExpectedVersion)
        ensures
            expected == self.expected,
    {
        self.expected
    }

    pub fn actual(self) -> (actual: ExpectedVersion)
        ensures
            actual == self.actual,
    {
        self.actual
    }
}

#[derive(Clone, Copy, Debug, Eq, PartialEq, Structural)]
pub enum EnqueueVerdict {
    Enqueued,
    AlreadyEnqueued,
}

/// Why an operation on a job is refused.
#[derive(Clone, Copy, Debug, Eq, PartialEq, Structural)]
pub enum JobError {
    NotFound,
    PayloadMismatch,
    NotRunnable { run_at: Instant },
    LeaseUnavailable { expires: Instant },
    NotLeased,
    LeaseLost { requested: LeaseToken, held: LeaseToken },
    AlreadyCompleted,
    AlreadyDeadLettered(DeadReason),
    LeaseTokenExhausted,
    AttemptCountExhausted,
    ClaimCountExhausted,
}

#[derive(Clone, Debug, Eq, PartialEq)]
pub enum ClaimVerdict {
    Claimed { token: LeaseToken, attempts: AttemptCount, payload: JobPayload },
    Abandon,
}

/// What an operation makes of the stored record, or why it is refused.
pub type Outcome = Result<Mutation<JobRecordView>, JobError>;

/// The outcome that a result with a verdict stands for.
pub open spec fn decided<V>(result: Result<Decision<V, JobRecord>, JobError>) -> Outcome {
    match result {
        Ok(decision) => Ok(decision.mutation@),
        Err(error) => Err(error),
    }
}

/// The outcome that a result without a verdict stands for.
pub open spec fn mutated(result: Result<Mutation<JobRecord>, JobError>) -> Outcome {
    match result {
        Ok(mutation) => Ok(mutation@),
        Err(error) => Err(error),
    }
}

/// The record that is stored, as its view.
pub open spec fn stored(current: Option<JobRecord>) -> Option<JobRecordView> {
    match current {
        Some(record) => Some(record@),
        None => None,
    }
}

/// A job is enqueued once; enqueuing it again with the same payload changes nothing.
pub open spec fn enqueue_outcome(
    payload: Seq<u8>,
    run_at: Option<Instant>,
    current: Option<JobRecordView>,
) -> Outcome {
    match current {
        None => Ok(Mutation::Changed(JobRecordView::enqueued(payload, run_at))),
        Some(record) => if record.payload == payload {
            Ok(Mutation::Unchanged(record))
        } else {
            Err(JobError::PayloadMismatch)
        },
    }
}

/// Why the record cannot be claimed at `now`, if it cannot.
pub open spec fn claim_refusal(now: Instant, record: JobRecordView) -> Option<JobError> {
    match record.status {
        JobStatus::Completed => Some(JobError::AlreadyCompleted),
        JobStatus::DeadLettered(reason) => Some(JobError::AlreadyDeadLettered(reason)),
        JobStatus::Scheduled(run_at) => if now.0 < run_at.0 {
            Some(JobError::NotRunnable { run_at })
        } else {
            None
        },
        JobStatus::Leased(expires) => if now.0 < expires.0 {
            Some(JobError::LeaseUnavailable { expires })
        } else {
            None
        },
        JobStatus::Ready => None,
    }
}

/// A claim leases the record under the next token, or gives the job up when its
/// claims are over the budget.
pub open spec fn claim_outcome(
    window: LeaseWindowView,
    budget: ClaimBudget,
    current: Option<JobRecordView>,
) -> Outcome {
    match current {
        None => Err(JobError::NotFound),
        Some(record) => match claim_refusal(window.start, record) {
            Some(error) => Err(error),
            None => if record.claims.0 == u64::MAX {
                Err(JobError::ClaimCountExhausted)
            } else {
                let counted = JobRecordView {
                    claims: ClaimCount((record.claims.0 + 1) as u64),
                    ..record
                };
                if counted.claims.0 > budget.0 {
                    Ok(
                        Mutation::Changed(
                            JobRecordView {
                                status: JobStatus::DeadLettered(DeadReason::Abandoned),
                                ..counted
                            },
                        ),
                    )
                } else if record.token.0 == u64::MAX {
                    Err(JobError::LeaseTokenExhausted)
                } else {
                    Ok(
                        Mutation::Changed(
                            JobRecordView {
                                status: JobStatus::Leased(window.end),
                                token: LeaseToken((record.token.0 + 1) as u64),
                                ..counted
                            },
                        ),
                    )
                }
            },
        },
    }
}

/// Why the holder of `token` may not change the record, if it may not.
pub open spec fn lease_refusal(token: LeaseToken, record: JobRecordView) -> Option<JobError> {
    if token != record.token {
        Some(JobError::LeaseLost { requested: token, held: record.token })
    } else {
        match record.status {
            JobStatus::Ready => Some(JobError::NotLeased),
            JobStatus::Scheduled(_) => Some(JobError::NotLeased),
            JobStatus::Completed => Some(JobError::AlreadyCompleted),
            JobStatus::DeadLettered(reason) => Some(JobError::AlreadyDeadLettered(reason)),
            JobStatus::Leased(_) => None,
        }
    }
}

/// The lease holder's record, after `change`, unless the holder is refused.
pub open spec fn held_outcome(
    token: LeaseToken,
    current: Option<JobRecordView>,
    change: spec_fn(JobRecordView) -> Outcome,
) -> Outcome {
    match current {
        None => Err(JobError::NotFound),
        Some(record) => match lease_refusal(token, record) {
            Some(error) => Err(error),
            None => change(record),
        },
    }
}

/// Completes the held job; a job that this token completed already stays as it is.
pub open spec fn acknowledge_outcome(token: LeaseToken, current: Option<JobRecordView>) -> Outcome {
    match current {
        Some(record) if token == record.token && record.status is Completed => Ok(
            Mutation::Unchanged(record),
        ),
        _ => held_outcome(
            token,
            current,
            |record: JobRecordView|
                Ok(Mutation::Changed(JobRecordView { status: JobStatus::Completed, ..record })),
        ),
    }
}

/// One more counted failure under `status`.
pub open spec fn failed_again(record: JobRecordView, status: JobStatus) -> Outcome {
    if record.attempts.0 == u64::MAX {
        Err(JobError::AttemptCountExhausted)
    } else {
        Ok(
            Mutation::Changed(
                JobRecordView {
                    status,
                    attempts: AttemptCount((record.attempts.0 + 1) as u64),
                    ..record
                },
            ),
        )
    }
}

/// Counts a failure and schedules the held job anew.
pub open spec fn retry_outcome(
    token: LeaseToken,
    run_at: Instant,
    current: Option<JobRecordView>,
) -> Outcome {
    held_outcome(
        token,
        current,
        |record: JobRecordView| failed_again(record, JobStatus::Scheduled(run_at)),
    )
}

/// Schedules the held job anew without counting a failure, and forgets its claims.
pub open spec fn defer_outcome(
    token: LeaseToken,
    run_at: Instant,
    current: Option<JobRecordView>,
) -> Outcome {
    held_outcome(
        token,
        current,
        |record: JobRecordView|
            Ok(
                Mutation::Changed(
                    JobRecordView {
                        status: JobStatus::Scheduled(run_at),
                        claims: ClaimCount(0),
                        ..record
                    },
                ),
            ),
    )
}

/// Gives the held job up; a job that this token gave up for the same reason stays as it is.
pub open spec fn dead_letter_outcome(
    token: LeaseToken,
    reason: DeadReason,
    current: Option<JobRecordView>,
) -> Outcome {
    match current {
        Some(record) if token == record.token && record.status == JobStatus::DeadLettered(
            reason,
        ) => Ok(Mutation::Unchanged(record)),
        _ => held_outcome(
            token,
            current,
            |record: JobRecordView|
                Ok(
                    Mutation::Changed(
                        JobRecordView { status: JobStatus::DeadLettered(reason), ..record },
                    ),
                ),
        ),
    }
}

/// Counts a last failure and gives the held job up.
pub open spec fn exhaust_outcome(token: LeaseToken, current: Option<JobRecordView>) -> Outcome {
    held_outcome(
        token,
        current,
        |record: JobRecordView|
            failed_again(record, JobStatus::DeadLettered(DeadReason::RetriesExhausted)),
    )
}

/// Lets a writer append where it saw the stream's last version.
pub fn append_check(expected: ExpectedVersion, actual: ExpectedVersion) -> (result: Result<
    (),
    AppendConflict,
>)
    ensures
        expected == actual ==> result == Ok::<(), AppendConflict>(()),
        expected != actual ==> result == Err::<(), _>(AppendConflict { expected, actual }),
{
    if expected == actual {
        Ok(())
    } else {
        Err(AppendConflict { expected, actual })
    }
}

/// Enqueues a job, once.
pub fn enqueue(
    payload: JobPayload,
    run_at: Option<Instant>,
    current: Option<JobRecord>,
) -> (result: Result<Decision<EnqueueVerdict, JobRecord>, JobError>)
    ensures
        decided(result) == enqueue_outcome(payload@, run_at, stored(current)),
        result matches Ok(decision) ==> (decision.verdict == if current is None {
            EnqueueVerdict::Enqueued
        } else {
            EnqueueVerdict::AlreadyEnqueued
        }),
{
    match current {
        None => Ok(
            Decision::new(
                EnqueueVerdict::Enqueued,
                Mutation::Changed(JobRecord::enqueued(payload, run_at)),
            ),
        ),
        Some(record) => {
            if record.payload().same(&payload) {
                Ok(Decision::new(EnqueueVerdict::AlreadyEnqueued, Mutation::Unchanged(record)))
            } else {
                Err(JobError::PayloadMismatch)
            }
        },
    }
}

/// Leases a job for the window, unless its claims are over the budget.
pub fn claim(window: LeaseWindow, budget: ClaimBudget, current: Option<JobRecord>) -> (result:
    Result<Decision<ClaimVerdict, JobRecord>, JobError>)
    ensures
        decided(result) == claim_outcome(window@, budget, stored(current)),
        result matches Ok(decision) ==> ({
            let next = decision.mutation@.value();
            if next.status is Leased {
                decision.verdict matches ClaimVerdict::Claimed { token, attempts, payload }
                    && token == next.token && attempts == next.attempts && payload@
                    == next.payload
            } else {
                decision.verdict == ClaimVerdict::Abandon
            }
        }),
{
    let Some(record) = current else {
        return Err(JobError::NotFound);
    };

    match record.status() {
        JobStatus::Completed => return Err(JobError::AlreadyCompleted),
        JobStatus::DeadLettered(reason) => {
            return Err(JobError::AlreadyDeadLettered(reason));
        },
        JobStatus::Scheduled(run_at) => {
            if window.start().0 < run_at.0 {
                return Err(JobError::NotRunnable { run_at });
            }
        },
        JobStatus::Leased(expires) => {
            if window.start().0 < expires.0 {
                return Err(JobError::LeaseUnavailable { expires });
            }
        },
        JobStatus::Ready => {},
    }

    let claims: u64 = record.claims().get();
    let Some(next_claims) = claims.checked_add(1) else {
        return Err(JobError::ClaimCountExhausted);
    };
    if next_claims > budget.get() {
        let abandoned = rebuild(
            &record,
            JobStatus::DeadLettered(DeadReason::Abandoned),
            record.token(),
            record.attempts(),
            ClaimCount::new(next_claims),
        );
        return Ok(Decision::new(ClaimVerdict::Abandon, Mutation::Changed(abandoned)));
    }

    let Some(next_token) = record.token().get().checked_add(1) else {
        return Err(JobError::LeaseTokenExhausted);
    };
    let token = LeaseToken::new(next_token);
    let claimed = rebuild(
        &record,
        JobStatus::Leased(window.end()),
        token,
        record.attempts(),
        ClaimCount::new(next_claims),
    );
    Ok(
        Decision::new(
            ClaimVerdict::Claimed {
                token,
                attempts: record.attempts(),
                payload: record.payload().duplicate(),
            },
            Mutation::Changed(claimed),
        ),
    )
}

/// Completes the job that `token` holds.
pub fn acknowledge(token: LeaseToken, current: Option<JobRecord>) -> (result: Result<
    Mutation<JobRecord>,
    JobError,
>)
    ensures
        mutated(result) == acknowledge_outcome(token, stored(current)),
{
    let Some(record) = current else {
        return Err(JobError::NotFound);
    };
    match check_token(token, &record) {
        Ok(()) => {},
        Err(error) => return Err(error),
    }

    match record.status() {
        JobStatus::Ready | JobStatus::Scheduled(_) => Err(JobError::NotLeased),
        JobStatus::Leased(_) => {
            let completed = rebuild(
                &record,
                JobStatus::Completed,
                record.token(),
                record.attempts(),
                record.claims(),
            );
            Ok(Mutation::Changed(completed))
        },
        JobStatus::Completed => Ok(Mutation::Unchanged(record)),
        JobStatus::DeadLettered(reason) => Err(JobError::AlreadyDeadLettered(reason)),
    }
}

/// Counts a failure of the job that `token` holds, to run again at `run_at`.
pub fn retry(token: LeaseToken, run_at: Instant, current: Option<JobRecord>) -> (result: Result<
    Decision<AttemptCount, JobRecord>,
    JobError,
>)
    ensures
        decided(result) == retry_outcome(token, run_at, stored(current)),
        result matches Ok(decision) ==> decision.verdict == decision.mutation@.value().attempts,
{
    let record = match leased_record(token, current) {
        Ok(record) => record,
        Err(error) => return Err(error),
    };
    let attempts = match increment_attempts(record.attempts()) {
        Ok(attempts) => attempts,
        Err(error) => return Err(error),
    };
    let scheduled = rebuild(
        &record,
        JobStatus::Scheduled(run_at),
        record.token(),
        attempts,
        record.claims(),
    );
    Ok(Decision::new(attempts, Mutation::Changed(scheduled)))
}

/// Puts the job that `token` holds off to `run_at`, without counting a failure.
pub fn defer(token: LeaseToken, run_at: Instant, current: Option<JobRecord>) -> (result: Result<
    Mutation<JobRecord>,
    JobError,
>)
    ensures
        mutated(result) == defer_outcome(token, run_at, stored(current)),
{
    let record = match leased_record(token, current) {
        Ok(record) => record,
        Err(error) => return Err(error),
    };
    let scheduled = rebuild(
        &record,
        JobStatus::Scheduled(run_at),
        record.token(),
        record.attempts(),
        ClaimCount::zero(),
    );
    Ok(Mutation::Changed(scheduled))
}

/// Gives up the job that `token` holds.
pub fn dead_letter(token: LeaseToken, reason: DeadReason, current: Option<JobRecord>) -> (result:
    Result<Mutation<JobRecord>, JobError>)
    ensures
        mutated(result) == dead_letter_outcome(token, reason, stored(current)),
{
    let record = match current {
        Some(record) => {
            if record.token() == token && record.status() == JobStatus::DeadLettered(reason) {
                return Ok(Mutation::Unchanged(record));
            }
            record
        },
        None => return Err(JobError::NotFound),
    };
    let record = match leased_record(token, Some(record)) {
        Ok(record) => record,
        Err(error) => return Err(error),
    };
    let dead = rebuild(
        &record,
        JobStatus::DeadLettered(reason),
        record.token(),
        record.attempts(),
        record.claims(),
    );
    Ok(Mutation::Changed(dead))
}

/// Counts the last failure of the job that `token` holds, and gives it up.
pub fn exhaust(token: LeaseToken, current: Option<JobRecord>) -> (result: Result<
    Decision<AttemptCount, JobRecord>,
    JobError,
>)
    ensures
        decided(result) == exhaust_outcome(token, stored(current)),
        result matches Ok(decision) ==> decision.verdict == decision.mutation@.value().attempts,
{
    let record = match leased_record(token, current) {
        Ok(record) => record,
        Err(error) => return Err(error),
    };
    let attempts = match increment_attempts(record.attempts()) {
        Ok(attempts) => attempts,
        Err(error) => return Err(error),
    };
    let dead = rebuild(
        &record,
        JobStatus::DeadLettered(DeadReason::RetriesExhausted),
        record.token(),
        attempts,
        record.claims(),
    );
    Ok(Decision::new(attempts, Mutation::Changed(dead)))
}

/// The record that `token` holds a lease on.
pub fn leased_record(token: LeaseToken, current: Option<JobRecord>) -> (result: Result<
    JobRecord,
    JobError,
>)
    ensures
        match current {
            None => result == Err::<JobRecord, _>(JobError::NotFound),
            Some(record) => match lease_refusal(token, record@) {
                Some(error) => result == Err::<JobRecord, _>(error),
                None => result == Ok::<_, JobError>(record),
            },
        },
{
    let Some(record) = current else {
        return Err(JobError::NotFound);
    };
    match check_token(token, &record) {
        Ok(()) => {},
        Err(error) => return Err(error),
    }
    match record.status() {
        JobStatus::Ready | JobStatus::Scheduled(_) => Err(JobError::NotLeased),
        JobStatus::Completed => Err(JobError::AlreadyCompleted),
        JobStatus::DeadLettered(reason) => Err(JobError::AlreadyDeadLettered(reason)),
        JobStatus::Leased(_) => Ok(record),
    }
}

/// Whether `requested` is the token that the record was last leased under.
pub fn check_token(requested: LeaseToken, record: &JobRecord) -> (result: Result<(), JobError>)
    ensures
        requested == record@.token ==> result == Ok::<(), JobError>(()),
        requested != record@.token ==> result == Err::<(), _>(
            JobError::LeaseLost { requested, held: record@.token },
        ),
{
    let held = record.token();
    if requested == held {
        Ok(())
    } else {
        Err(JobError::LeaseLost { requested, held })
    }
}

/// One attempt more, where the count can hold it.
pub fn increment_attempts(attempts: AttemptCount) -> (result: Result<AttemptCount, JobError>)
    ensures
        attempts.0 < u64::MAX ==> (result matches Ok(next) && next.0 == attempts.0 + 1),
        attempts.0 == u64::MAX ==> result == Err::<AttemptCount, _>(
            JobError::AttemptCountExhausted,
        ),
{
    match attempts.get().checked_add(1) {
        Some(next) => Ok(AttemptCount::new(next)),
        None => Err(JobError::AttemptCountExhausted),
    }
}

/// The record's payload under another status, token and counts.
pub fn rebuild(
    record: &JobRecord,
    status: JobStatus,
    token: LeaseToken,
    attempts: AttemptCount,
    claims: ClaimCount,
) -> (rebuilt: JobRecord)
    ensures
        rebuilt@ == (JobRecordView {
            payload: record@.payload,
            status,
            token,
            attempts,
            claims,
        }),
{
    JobRecord::new(record.payload().duplicate(), status, token, attempts, claims)
}

/// An operation on a job that exists.
pub enum JobOperation {
    Enqueue { payload: Seq<u8>, first_run: Option<Instant> },
    Claim { window: LeaseWindowView, budget: ClaimBudget },
    Acknowledge { token: LeaseToken },
    Retry { token: LeaseToken, run_at: Instant },
    Defer { token: LeaseToken, run_at: Instant },
    DeadLetter { token: LeaseToken, reason: DeadReason },
    Exhaust { token: LeaseToken },
}

impl JobOperation {
    /// What the operation makes of the stored record.
    pub open spec fn outcome(self, record: JobRecordView) -> Outcome {
        let current = Some(record);
        match self {
            JobOperation::Enqueue { payload, first_run } => enqueue_outcome(
                payload,
                first_run,
                current,
            ),
            JobOperation::Claim { window, budget } => claim_outcome(window, budget, current),
            JobOperation::Acknowledge { token } => acknowledge_outcome(token, current),
            JobOperation::Retry { token, run_at } => retry_outcome(token, run_at, current),
            JobOperation::Defer { token, run_at } => defer_outcome(token, run_at, current),
            JobOperation::DeadLetter { token, reason } => dead_letter_outcome(
                token,
                reason,
                current,
            ),
            JobOperation::Exhaust { token } => exhaust_outcome(token, current),
        }
    }

    /// The token that the operation names, if it is one for lease holders.
    pub open spec fn token(self) -> Option<LeaseToken> {
        match self {
            JobOperation::Enqueue { .. } => None,
            JobOperation::Claim { .. } => None,
            JobOperation::Acknowledge { token } => Some(token),
            JobOperation::Retry { token, .. } => Some(token),
            JobOperation::Defer { token, .. } => Some(token),
            JobOperation::DeadLetter { token, .. } => Some(token),
            JobOperation::Exhaust { token } => Some(token),
        }
    }
}

/// A holder's operation under any token but the record's is refused as a lost lease.
pub proof fn law_stale_tokens_are_fenced(operation: JobOperation, record: JobRecordView)
    requires
        operation.token() is Some,
        operation.token() != Some(record.token),
    ensures
        operation.outcome(record) == Err::<Mutation<JobRecordView>, _>(
            JobError::LeaseLost { requested: operation.token()->0, held: record.token },
        ),
{
}

/// A lease is handed out under a token above the record's, so that whoever held
/// the job before is fenced off from then on.
pub proof fn law_claim_fences_earlier_holders(
    window: LeaseWindowView,
    budget: ClaimBudget,
    record: JobRecordView,
    later: JobOperation,
)
    requires
        claim_outcome(window, budget, Some(record)) matches Ok(mutation)
            && mutation.value().status is Leased,
        later.token() == Some(record.token),
    ensures
        ({
            let leased = claim_outcome(window, budget, Some(record))->Ok_0.value();
            &&& leased.token.0 == record.token.0 + 1
            &&& later.outcome(leased) == Err::<Mutation<JobRecordView>, _>(
                JobError::LeaseLost { requested: record.token, held: leased.token },
            )
        }),
{
}

/// While a lease runs, nobody else gets one.
pub proof fn law_lease_is_exclusive(
    window: LeaseWindowView,
    budget: ClaimBudget,
    record: JobRecordView,
    other: LeaseWindowView,
    other_budget: ClaimBudget,
)
    requires
        claim_outcome(window, budget, Some(record)) matches Ok(mutation)
            && mutation.value().status is Leased,
        other.start.0 < window.end.0,
    ensures
        claim_outcome(
            other,
            other_budget,
            Some(claim_outcome(window, budget, Some(record))->Ok_0.value()),
        ) == Err::<Mutation<JobRecordView>, _>(JobError::LeaseUnavailable { expires: window.end }),
{
}

/// A lease is never handed out over the claim budget.
pub proof fn law_leases_stay_within_the_claim_budget(
    window: LeaseWindowView,
    budget: ClaimBudget,
    record: JobRecordView,
)
    requires
        claim_outcome(window, budget, Some(record)) matches Ok(mutation)
            && mutation.value().status is Leased,
    ensures
        claim_outcome(window, budget, Some(record))->Ok_0.value().claims.0 <= budget.0,
{
}

/// No operation changes a job's payload.
pub proof fn law_payload_never_changes(operation: JobOperation, record: JobRecordView)
    requires
        operation.outcome(record) is Ok,
    ensures
        operation.outcome(record)->Ok_0.value().payload == record.payload,
{
}

/// No operation moves a job that is completed or given up.
pub proof fn law_terminal_jobs_stay(operation: JobOperation, record: JobRecordView)
    requires
        record.status.is_terminal(),
    ensures
        operation.outcome(record) matches Ok(mutation) ==> mutation == Mutation::Unchanged(record),
{
}

/// Tokens and counted failures never go down, and only a deferral takes claims back.
pub proof fn law_counters_never_go_down(operation: JobOperation, record: JobRecordView)
    requires
        operation.outcome(record) is Ok,
    ensures
        ({
            let next = operation.outcome(record)->Ok_0.value();
            &&& next.token.0 >= record.token.0
            &&& next.attempts.0 >= record.attempts.0
            &&& next.claims.0 >= record.claims.0 || operation is Defer
        }),
{
}

/// Enqueuing a job again with its payload gives back what was stored the first time.
pub proof fn law_enqueue_is_idempotent(
    payload: Seq<u8>,
    run_at: Option<Instant>,
    again_at: Option<Instant>,
    current: Option<JobRecordView>,
)
    requires
        enqueue_outcome(payload, run_at, current) is Ok,
    ensures
        ({
            let kept = enqueue_outcome(payload, run_at, current)->Ok_0.value();
            enqueue_outcome(payload, again_at, Some(kept)) == Ok::<_, JobError>(
                Mutation::Unchanged(kept),
            )
        }),
{
}

/// Acknowledging a job a second time changes nothing.
pub proof fn law_acknowledge_is_idempotent(token: LeaseToken, current: Option<JobRecordView>)
    requires
        acknowledge_outcome(token, current) is Ok,
    ensures
        ({
            let done = acknowledge_outcome(token, current)->Ok_0.value();
            acknowledge_outcome(token, Some(done)) == Ok::<_, JobError>(Mutation::Unchanged(done))
        }),
{
}

/// Giving a job up a second time for the same reason changes nothing.
pub proof fn law_dead_letter_is_idempotent(
    token: LeaseToken,
    reason: DeadReason,
    current: Option<JobRecordView>,
)
    requires
        dead_letter_outcome(token, reason, current) is Ok,
    ensures
        ({
            let dead = dead_letter_outcome(token, reason, current)->Ok_0.value();
            dead_letter_outcome(token, reason, Some(dead)) == Ok::<_, JobError>(
                Mutation::Unchanged(dead),
            )
        }),
{
}

/// A claim that is granted changes nothing but the status, the token and the claim
/// count; a deferral nothing but the status and the claim count; a retry nothing
/// but the status and the failure count.
pub proof fn law_operations_touch_only_their_fields(
    record: JobRecordView,
    window: LeaseWindowView,
    budget: ClaimBudget,
    token: LeaseToken,
    run_at: Instant,
)
    ensures
        claim_outcome(window, budget, Some(record)) matches Ok(mutation) ==> mutation.value()
            == (JobRecordView {
            status: mutation.value().status,
            token: mutation.value().token,
            claims: ClaimCount((record.claims.0 + 1) as u64),
            ..record
        }),
        defer_outcome(token, run_at, Some(record)) matches Ok(mutation) ==> mutation.value()
            == (JobRecordView {
            status: JobStatus::Scheduled(run_at),
            claims: ClaimCount(0),
            ..record
        }),
        retry_outcome(token, run_at, Some(record)) matches Ok(mutation) ==> mutation.value()
            == (JobRecordView {
            status: JobStatus::Scheduled(run_at),
            attempts: AttemptCount((record.attempts.0 + 1) as u64),
            ..record
        }),
{
}

/// A job that was just enqueued waits for its first run: with an instant for it, no claim
/// before that instant is granted, and with none, every claim is. The claim that is granted
/// is the first one, by a worker that is told of no failure.
pub proof fn law_enqueued_jobs_wait_for_their_first_run(
    payload: Seq<u8>,
    run_at: Option<Instant>,
    window: LeaseWindowView,
    budget: ClaimBudget,
)
    requires
        budget.0 > 0,
    ensures
        ({
            let fresh = enqueue_outcome(payload, run_at, None);
            &&& fresh is Ok
            &&& fresh->Ok_0 is Changed
            &&& match claim_outcome(window, budget, Some(fresh->Ok_0.value())) {
                Err(error) => run_at matches Some(instant) && window.start.0 < instant.0 && error
                    == (JobError::NotRunnable { run_at: instant }),
                Ok(mutation) => {
                    let leased = mutation.value();
                    &&& run_at matches Some(instant) ==> instant.0 <= window.start.0
                    &&& leased.status == JobStatus::Leased(window.end)
                    &&& leased.payload == payload
                    &&& leased.attempts.0 == 0
                    &&& leased.claims.0 == 1
                    &&& leased.token.0 == 1
                },
            }
        }),
{
}

/// A job that is put off, with a failure counted or without, waits for the instant that
/// it was put off to, and no longer.
pub proof fn law_jobs_that_are_put_off_wait(
    record: JobRecordView,
    operation: JobOperation,
    run_at: Instant,
    window: LeaseWindowView,
    budget: ClaimBudget,
)
    requires
        (operation matches JobOperation::Retry { run_at: instant, .. } && instant == run_at) || (
        operation matches JobOperation::Defer { run_at: instant, .. } && instant == run_at),
        operation.outcome(record) is Ok,
        budget.0 > 0,
    ensures
        ({
            let waiting = operation.outcome(record)->Ok_0.value();
            let claimed = claim_outcome(window, budget, Some(waiting));
            &&& window.start.0 < run_at.0 ==> claimed == Err::<Mutation<JobRecordView>, _>(
                JobError::NotRunnable { run_at },
            )
            &&& window.start.0 >= run_at.0 ==> !(claimed matches Err(JobError::NotRunnable { .. }))
                && !(claimed matches Err(JobError::LeaseUnavailable { .. }))
            &&& operation is Defer && window.start.0 >= run_at.0 && record.token.0 < u64::MAX
                ==> (claimed matches Ok(mutation) && mutation.value().status is Leased)
        }),
{
}

/// Who holds a lease may end it: the job is completed, given up or put off, and each end
/// is what the holder asked for. All else about the job stays, but for the failure that a
/// retry and an exhaustion count, and for the claims that a deferral forgets.
pub proof fn law_holders_decide_what_becomes_of_the_job(
    record: JobRecordView,
    run_at: Instant,
    reason: DeadReason,
    expires: Instant,
)
    requires
        record.status == JobStatus::Leased(expires),
    ensures
        acknowledge_outcome(record.token, Some(record)) matches Ok(Mutation::Changed(next)) && next
            == (JobRecordView { status: JobStatus::Completed, ..record }),
        dead_letter_outcome(record.token, reason, Some(record)) matches Ok(Mutation::Changed(next))
            && next == (JobRecordView { status: JobStatus::DeadLettered(reason), ..record }),
        defer_outcome(record.token, run_at, Some(record)) matches Ok(Mutation::Changed(next))
            && next.status == JobStatus::Scheduled(run_at) && next.claims.0 == 0 && next.attempts
            == record.attempts && next.token == record.token && next.payload == record.payload,
        match retry_outcome(record.token, run_at, Some(record)) {
            Ok(Mutation::Changed(next)) => next.status == JobStatus::Scheduled(run_at)
                && next.attempts.0 == record.attempts.0 + 1 && next.claims == record.claims
                && next.token == record.token && next.payload == record.payload,
            Ok(Mutation::Unchanged(_)) => false,
            Err(error) => record.attempts.0 == u64::MAX && error is AttemptCountExhausted,
        },
        match exhaust_outcome(record.token, Some(record)) {
            Ok(Mutation::Changed(next)) => next.status == JobStatus::DeadLettered(
                DeadReason::RetriesExhausted,
            ) && next.attempts.0 == record.attempts.0 + 1 && next.claims == record.claims
                && next.token == record.token && next.payload == record.payload,
            Ok(Mutation::Unchanged(_)) => false,
            Err(error) => record.attempts.0 == u64::MAX && error is AttemptCountExhausted,
        },
{
}

/// A job that nobody holds is changed by no holder's operation: one that waits is not
/// leased, and one that ended says how it ended, unless it ended just as it is asked to.
pub proof fn law_only_leases_let_a_holder_decide(operation: JobOperation, record: JobRecordView)
    requires
        operation.token() == Some(record.token),
        !(record.status is Leased),
    ensures
        match (record.status, operation.outcome(record)) {
            (JobStatus::Ready, result) => result == Err::<Mutation<JobRecordView>, _>(
                JobError::NotLeased,
            ),
            (JobStatus::Scheduled(_), result) => result == Err::<Mutation<JobRecordView>, _>(
                JobError::NotLeased,
            ),
            (JobStatus::Completed, Ok(mutation)) => operation is Acknowledge && mutation
                == Mutation::Unchanged(record),
            (JobStatus::Completed, Err(error)) => !(operation is Acknowledge)
                && error is AlreadyCompleted,
            (JobStatus::DeadLettered(reason), Ok(mutation)) => operation
                == (JobOperation::DeadLetter { token: record.token, reason }) && mutation
                == Mutation::Unchanged(record),
            (JobStatus::DeadLettered(reason), Err(error)) => operation != (
            JobOperation::DeadLetter { token: record.token, reason }) && error
                == JobError::AlreadyDeadLettered(reason),
            (JobStatus::Leased(_), _) => false,
        },
{
}

/// A claim looks at the job, and at nothing but the job: a job that ended, that is not
/// due yet or that is held is not claimed; of the others, one whose claims reached the
/// budget is abandoned, and any other is leased for the whole window, its failures
/// untouched. Where there is no job, no operation finds one.
pub proof fn law_claims_are_granted_to_jobs_that_are_due(
    window: LeaseWindowView,
    budget: ClaimBudget,
    record: JobRecordView,
)
    ensures
        claim_outcome(window, budget, None) == Err::<Mutation<JobRecordView>, _>(
            JobError::NotFound,
        ),
        match claim_outcome(window, budget, Some(record)) {
            Err(JobError::AlreadyCompleted) => record.status is Completed,
            Err(JobError::AlreadyDeadLettered(reason)) => record.status == JobStatus::DeadLettered(
                reason,
            ),
            Err(JobError::NotRunnable { run_at }) => record.status == JobStatus::Scheduled(run_at)
                && window.start.0 < run_at.0,
            Err(JobError::LeaseUnavailable { expires }) => record.status == JobStatus::Leased(
                expires,
            ) && window.start.0 < expires.0,
            Err(JobError::ClaimCountExhausted) => record.claims.0 == u64::MAX,
            Err(JobError::LeaseTokenExhausted) => record.token.0 == u64::MAX && record.claims.0
                < budget.0,
            Err(_) => false,
            Ok(mutation) => {
                let next = mutation.value();
                &&& mutation is Changed
                &&& !record.status.is_terminal()
                &&& record.status matches JobStatus::Scheduled(run_at) ==> run_at.0
                    <= window.start.0
                &&& record.status matches JobStatus::Leased(expires) ==> expires.0
                    <= window.start.0
                &&& next.attempts == record.attempts
                &&& next.payload == record.payload
                &&& next.claims.0 == record.claims.0 + 1
                &&& if record.claims.0 >= budget.0 {
                    next.status == JobStatus::DeadLettered(DeadReason::Abandoned) && next.token
                        == record.token
                } else {
                    next.status == JobStatus::Leased(window.end) && next.token.0 == record.token.0
                        + 1
                }
            },
        },
        record.status is Ready && record.claims.0 < budget.0 && record.token.0 < u64::MAX
            ==> claim_outcome(window, budget, Some(record)) is Ok,
        record.status is Completed ==> claim_outcome(window, budget, Some(record)) is Err,
        record.status is DeadLettered ==> claim_outcome(window, budget, Some(record)) is Err,
{
}

/// No operation of a holder finds a job where there is none, and an enqueue refuses
/// another payload than the one that is stored.
pub proof fn law_operations_need_their_job(
    token: LeaseToken,
    run_at: Instant,
    reason: DeadReason,
    payload: Seq<u8>,
    first_run: Option<Instant>,
    record: JobRecordView,
)
    ensures
        acknowledge_outcome(token, None) == Err::<Mutation<JobRecordView>, _>(JobError::NotFound),
        retry_outcome(token, run_at, None) == Err::<Mutation<JobRecordView>, _>(
            JobError::NotFound,
        ),
        defer_outcome(token, run_at, None) == Err::<Mutation<JobRecordView>, _>(
            JobError::NotFound,
        ),
        dead_letter_outcome(token, reason, None) == Err::<Mutation<JobRecordView>, _>(
            JobError::NotFound,
        ),
        exhaust_outcome(token, None) == Err::<Mutation<JobRecordView>, _>(JobError::NotFound),
        payload != record.payload ==> enqueue_outcome(payload, first_run, Some(record)) == Err::<
            Mutation<JobRecordView>,
            _,
        >(JobError::PayloadMismatch),
        payload == record.payload ==> enqueue_outcome(payload, first_run, Some(record)) == Ok::<
            _,
            JobError,
        >(Mutation::Unchanged(record)),
{
}

/// An enqueue says whether the job is new, and stores it under its payload.
pub proof fn law_enqueues_say_whether_the_job_is_new(
    payload: JobPayload,
    run_at: Option<Instant>,
    current: Option<JobRecord>,
    result: Result<Decision<EnqueueVerdict, JobRecord>, JobError>,
)
    requires
        call_ensures(enqueue, (payload, run_at, current), result),
    ensures
        current is None ==> (result matches Ok(decision) && decision.verdict
            is Enqueued && (decision.mutation matches Mutation::Changed(record) && record@.payload
            == payload@ && !record@.status.is_terminal() && !(record@.status is Leased))),
        current matches Some(record) ==> match result {
            Ok(decision) => decision.verdict is AlreadyEnqueued && record@.payload == payload@
                && decision.mutation@ == Mutation::Unchanged(record@),
            Err(error) => error is PayloadMismatch && record@.payload != payload@,
        },
{
}

/// The worker that is given a lease is told of it as it is stored: its token, the
/// failures that were counted before, and the payload.
pub proof fn law_claims_tell_what_they_store(
    window: LeaseWindow,
    budget: ClaimBudget,
    record: JobRecord,
    result: Result<Decision<ClaimVerdict, JobRecord>, JobError>,
)
    requires
        call_ensures(claim, (window, budget, Some(record)), result),
        result is Ok,
    ensures
        match result->Ok_0.verdict {
            ClaimVerdict::Claimed { token, attempts, payload } => {
                let next = result->Ok_0.mutation@.value();
                &&& token.0 == record@.token.0 + 1
                &&& next.token == token
                &&& next.status == JobStatus::Leased(window@.end)
                &&& attempts == record@.attempts
                &&& payload@ == record@.payload
            },
            ClaimVerdict::Abandon => result->Ok_0.mutation@.value().status
                == JobStatus::DeadLettered(DeadReason::Abandoned) && record@.claims.0 >= budget.0,
        },
{
}

/// A failure is counted once, and the count that is told is the one that is stored.
pub proof fn law_failures_are_counted_once(
    token: LeaseToken,
    run_at: Instant,
    record: JobRecord,
    retried: Result<Decision<AttemptCount, JobRecord>, JobError>,
    exhausted: Result<Decision<AttemptCount, JobRecord>, JobError>,
)
    requires
        call_ensures(retry, (token, run_at, Some(record)), retried),
        call_ensures(exhaust, (token, Some(record)), exhausted),
    ensures
        retried is Ok <==> exhausted is Ok,
        retried matches Ok(decision) ==> decision.verdict.0 == record@.attempts.0 + 1
            && decision.mutation@.value().attempts == decision.verdict,
        exhausted matches Ok(decision) ==> decision.verdict.0 == record@.attempts.0 + 1
            && decision.mutation@.value().attempts == decision.verdict,
{
}

/// Exactly the writers that saw the last version may append; the others are told both
/// versions.
pub proof fn law_appends_need_the_last_version(
    expected: ExpectedVersion,
    actual: ExpectedVersion,
    result: Result<(), AppendConflict>,
)
    requires
        call_ensures(append_check, (expected, actual), result),
    ensures
        match result {
            Ok(()) => expected == actual,
            Err(conflict) => expected != actual && conflict.expected == expected && conflict.actual
                == actual,
        },
{
}

/// A lease window is never empty, and is made of any two instants that are in order.
pub proof fn law_windows_end_after_they_start(
    start: Instant,
    end: Instant,
    result: Result<LeaseWindow, InvalidLeaseWindow>,
)
    requires
        call_ensures(LeaseWindow::new, (start, end), result),
    ensures
        match result {
            Ok(window) => start.0 < end.0 && window@.start == start && window@.end == end,
            Err(_) => end.0 <= start.0,
        },
{
}

/// The record that a holder's operation leaves is the one that the outcome says, and the
/// store is told to write exactly where something changed: an operation that is refused,
/// or that finds its work done, writes nothing.
pub proof fn law_holders_write_what_they_decide(
    token: LeaseToken,
    run_at: Instant,
    reason: DeadReason,
    record: JobRecord,
    acknowledged: Result<Mutation<JobRecord>, JobError>,
    deferred: Result<Mutation<JobRecord>, JobError>,
    dead: Result<Mutation<JobRecord>, JobError>,
    held: Result<JobRecord, JobError>,
)
    requires
        call_ensures(acknowledge, (token, Some(record)), acknowledged),
        call_ensures(defer, (token, run_at, Some(record)), deferred),
        call_ensures(dead_letter, (token, reason, Some(record)), dead),
        call_ensures(leased_record, (token, Some(record)), held),
    ensures
        held is Ok <==> token == record@.token && record@.status is Leased,
        held matches Ok(found) ==> found@ == record@,
        acknowledged matches Ok(Mutation::Changed(next)) ==> held is Ok && next@.status is Completed
            && next@.payload == record@.payload && next@.token == token,
        acknowledged matches Ok(Mutation::Unchanged(kept)) ==> kept@ == record@
            && record@.status is Completed && token == record@.token,
        held is Ok ==> (acknowledged matches Ok(Mutation::Changed(_))),
        deferred matches Ok(Mutation::Changed(next)) ==> held is Ok && next@.status
            == JobStatus::Scheduled(run_at) && next@.payload == record@.payload && next@.claims.0
            == 0 && next@.attempts == record@.attempts,
        deferred is Ok <==> held is Ok,
        deferred matches Ok(mutation) ==> mutation is Changed,
        dead matches Ok(Mutation::Changed(next)) ==> held is Ok && next@.status
            == JobStatus::DeadLettered(reason) && next@.payload == record@.payload,
        dead matches Ok(Mutation::Unchanged(kept)) ==> kept@ == record@ && record@.status
            == JobStatus::DeadLettered(reason) && token == record@.token,
        held is Ok ==> (dead matches Ok(Mutation::Changed(_))),
        token != record@.token ==> acknowledged is Err && deferred is Err && dead is Err,
{
}

/// A token is checked against the record's, and a count of failures grows by one.
pub proof fn law_tokens_and_counts_are_checked(
    token: LeaseToken,
    record: JobRecord,
    checked: Result<(), JobError>,
    attempts: AttemptCount,
    next: Result<AttemptCount, JobError>,
)
    requires
        call_ensures(check_token, (token, &record), checked),
        call_ensures(increment_attempts, (attempts,), next),
    ensures
        checked is Ok <==> token.0 == record@.token.0,
        checked matches Err(error) ==> error == (JobError::LeaseLost {
            requested: token,
            held: record@.token,
        }),
        match next {
            Ok(count) => count.0 == attempts.0 + 1,
            Err(error) => attempts.0 == u64::MAX && error is AttemptCountExhausted,
        },
{
}

/// What a claim, a retry or an exhaustion leaves to be stored is its outcome, on any record
/// and on none.
pub proof fn law_claims_and_failures_leave_their_outcome(
    window: LeaseWindow,
    budget: ClaimBudget,
    token: LeaseToken,
    run_at: Instant,
    current: Option<JobRecord>,
    claimed: Result<Decision<ClaimVerdict, JobRecord>, JobError>,
    retried: Result<Decision<AttemptCount, JobRecord>, JobError>,
    exhausted: Result<Decision<AttemptCount, JobRecord>, JobError>,
)
    requires
        call_ensures(claim, (window, budget, current), claimed),
        call_ensures(retry, (token, run_at, current), retried),
        call_ensures(exhaust, (token, current), exhausted),
    ensures
        decided(claimed) == claim_outcome(window@, budget, stored(current)),
        decided(retried) == retry_outcome(token, run_at, stored(current)),
        decided(exhausted) == exhaust_outcome(token, stored(current)),
        current is None ==> claimed == Err::<Decision<ClaimVerdict, JobRecord>, _>(
            JobError::NotFound,
        ) && retried == Err::<Decision<AttemptCount, JobRecord>, _>(JobError::NotFound)
            && exhausted == Err::<Decision<AttemptCount, JobRecord>, _>(JobError::NotFound),
        retried matches Ok(decision) ==> decision.mutation@.value().status == JobStatus::Scheduled(
            run_at,
        ),
        exhausted matches Ok(decision) ==> decision.mutation@.value().status
            == JobStatus::DeadLettered(DeadReason::RetriesExhausted),
{
}

} // verus!
