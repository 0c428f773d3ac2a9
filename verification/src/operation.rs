//! Operations of an entity that a durable job carries out.
//!
//! An entity holds an [`Operation`] for each of them. A request enqueues the driving
//! job with the event that records it; the job's outcome comes back as a command.

use vstd::prelude::*;

use crate::dispatch::{after_reconcile, Owed, Reconciled, RunStep};
pub use crate::dispatch::Reconciliation;
use crate::entity::EventSourced;
use crate::job::{
    DeadReason, JobContext, JobFailure, JobId, JobKind, JobOutcome, Label, PendingJobs, PendingPush,
};
use crate::time::Delay;

verus! {

/// A job that carries out an entity's operation. Nothing is assumed of what an
/// implementation returns.
pub trait OperationJob: Clone + std::fmt::Debug + PartialEq + Sized {
    /// What a run of the job is given.
    type Input;

    /// What a confirmed operation produced.
    type Output: Clone + std::fmt::Debug + PartialEq;

    /// Why an operation was rejected.
    type Error: Clone + std::fmt::Debug + PartialEq;

    /// The entity that the outcome goes to.
    type Origin: EventSourced;

    const WORKER_NAME: &'static str;

    /// The kind by which the job finds its worker.
    const KIND: &'static str;

    /// What the job is called in logs.
    fn label(&self) -> Label;

    /// The entity that the outcome goes to.
    fn origin_id(&self) -> <Self::Origin as EventSourced>::Id;

    /// What the job carries, in JSON form, or why it has none.
    fn encode(&self) -> Result<serde_json::Value, String>;
}

/// Why an outcome did not reach the entity.
#[derive(Clone, Debug)]
pub struct OriginDeliveryError(pub String);

/// How long a worker waits before it delivers an outcome again, in seconds.
pub const DELIVERY_RETRY_SECS: u64 = 5;

/// The state of an operation.
#[derive(Debug, PartialEq)]
pub enum Operation<J: OperationJob> {
    /// Nothing was asked for.
    Idle,
    /// A job drives the operation.
    Requested { job_id: JobId },
    /// The operation succeeded.
    Confirmed { job_id: JobId, output: J::Output, attempts: u32 },
    /// The operation failed.
    Failed { job_id: JobId, failure: OperationFailure<J::Error>, attempts: u32 },
}

/// A step of an operation, on the entity's stream.
#[derive(Debug, PartialEq)]
pub enum OperationEvent<J: OperationJob> {
    Requested { job_id: JobId },
    Confirmed { job_id: JobId, output: J::Output, attempts: u32 },
    Failed { job_id: JobId, failure: OperationFailure<J::Error>, attempts: u32 },
}

/// A command on an operation.
#[derive(Debug, PartialEq)]
pub enum OperationCommand<J: OperationJob> {
    /// Start it.
    Request(J),
    /// Its job settled with success.
    Confirm { job_id: JobId, output: J::Output, attempts: u32 },
    /// Its job settled with a failure.
    Fail { job_id: JobId, failure: OperationFailure<J::Error>, attempts: u32 },
}

/// Why an operation failed.
#[derive(Debug, PartialEq)]
pub enum OperationFailure<DomainError> {
    /// It was rejected for good.
    Rejected(DomainError),
    /// Its job was given up without an answer.
    DeadLettered { reason: DeadReason, detail: String },
}

/// Why a command on an operation is refused.
#[derive(Clone, Copy, Debug, Eq, PartialEq, Structural)]
pub enum OperationRefused {
    /// A job drives the operation already.
    InFlight,
    /// The operation was confirmed already.
    AlreadyConfirmed,
    /// The outcome does not belong to the state.
    OutcomeMismatch,
}

/// An event that cannot follow on the state.
#[derive(Clone, Copy, Debug, Eq, PartialEq, Structural)]
pub struct OperationReplay;

/// Whether `copy` is a copy of `failure`.
pub open spec fn failure_copied<DomainError: Clone>(
    failure: OperationFailure<DomainError>,
    copy: OperationFailure<DomainError>,
) -> bool {
    match (failure, copy) {
        (OperationFailure::Rejected(error), OperationFailure::Rejected(error_copy)) => cloned(
            error,
            error_copy,
        ),
        (OperationFailure::DeadLettered { .. }, OperationFailure::DeadLettered { .. }) => failure
            == copy,
        _ => false,
    }
}

impl<DomainError: Clone> Clone for OperationFailure<DomainError> {
    fn clone(&self) -> (copy: Self)
        ensures
            failure_copied(*self, copy),
    {
        match self {
            OperationFailure::Rejected(error) => OperationFailure::Rejected(error.clone()),
            OperationFailure::DeadLettered { reason, detail } => OperationFailure::DeadLettered {
                reason: *reason,
                detail: detail.clone(),
            },
        }
    }
}

/// Whether `copy` is a copy of the operation.
pub open spec fn operation_copied<J: OperationJob>(state: Operation<J>, copy: Operation<J>) -> bool {
    match (state, copy) {
        (Operation::Idle, Operation::Idle) => true,
        (Operation::Requested { .. }, Operation::Requested { .. }) => state == copy,
        (
            Operation::Confirmed { job_id, output, attempts },
            Operation::Confirmed { job_id: id_copy, output: output_copy, attempts: attempts_copy },
        ) => job_id == id_copy && attempts == attempts_copy && cloned(output, output_copy),
        (
            Operation::Failed { job_id, failure, attempts },
            Operation::Failed { job_id: id_copy, failure: copy_failure, attempts: attempts_copy },
        ) => job_id == id_copy && attempts == attempts_copy && failure_copied(
            failure,
            copy_failure,
        ),
        _ => false,
    }
}

impl<J: OperationJob> Clone for Operation<J> {
    fn clone(&self) -> (copy: Self)
        ensures
            operation_copied(*self, copy),
    {
        match self {
            Operation::Idle => Operation::Idle,
            Operation::Requested { job_id } => Operation::Requested { job_id: *job_id },
            Operation::Confirmed { job_id, output, attempts } => Operation::Confirmed {
                job_id: *job_id,
                output: output.clone(),
                attempts: *attempts,
            },
            Operation::Failed { job_id, failure, attempts } => Operation::Failed {
                job_id: *job_id,
                failure: failure.clone(),
                attempts: *attempts,
            },
        }
    }
}

/// Whether `copy` is a copy of the event.
pub open spec fn event_copied<J: OperationJob>(
    event: OperationEvent<J>,
    copy: OperationEvent<J>,
) -> bool {
    match (event, copy) {
        (OperationEvent::Requested { .. }, OperationEvent::Requested { .. }) => event == copy,
        (
            OperationEvent::Confirmed { job_id, output, attempts },
            OperationEvent::Confirmed {
                job_id: id_copy,
                output: output_copy,
                attempts: attempts_copy,
            },
        ) => job_id == id_copy && attempts == attempts_copy && cloned(output, output_copy),
        (
            OperationEvent::Failed { job_id, failure, attempts },
            OperationEvent::Failed {
                job_id: id_copy,
                failure: copy_failure,
                attempts: attempts_copy,
            },
        ) => job_id == id_copy && attempts == attempts_copy && failure_copied(
            failure,
            copy_failure,
        ),
        _ => false,
    }
}

impl<J: OperationJob> Clone for OperationEvent<J> {
    fn clone(&self) -> (copy: Self)
        ensures
            event_copied(*self, copy),
    {
        match self {
            OperationEvent::Requested { job_id } => OperationEvent::Requested { job_id: *job_id },
            OperationEvent::Confirmed { job_id, output, attempts } => OperationEvent::Confirmed {
                job_id: *job_id,
                output: output.clone(),
                attempts: *attempts,
            },
            OperationEvent::Failed { job_id, failure, attempts } => OperationEvent::Failed {
                job_id: *job_id,
                failure: failure.clone(),
                attempts: *attempts,
            },
        }
    }
}

/// What the guard of an operation says to a command.
pub enum Guarded<J: OperationJob> {
    /// Enqueue the job, and record the request.
    Enqueue(J),
    /// Record the event.
    Record(OperationEvent<J>),
    /// Record nothing: the outcome is known.
    Absorb,
    Refuse(OperationRefused),
}

/// What the guard says: a request is let through where nothing runs and nothing was
/// confirmed; an outcome is recorded for the job that runs, and absorbed where it was
/// recorded before.
pub open spec fn guarded<J: OperationJob>(
    state: Operation<J>,
    command: OperationCommand<J>,
) -> Guarded<J> {
    match command {
        OperationCommand::Request(job) => match state {
            Operation::Idle => Guarded::Enqueue(job),
            Operation::Failed { .. } => Guarded::Enqueue(job),
            Operation::Requested { .. } => Guarded::Refuse(OperationRefused::InFlight),
            Operation::Confirmed { .. } => Guarded::Refuse(OperationRefused::AlreadyConfirmed),
        },
        OperationCommand::Confirm { job_id, output, attempts } => match state {
            Operation::Requested { job_id: running } if running == job_id => Guarded::Record(
                OperationEvent::Confirmed { job_id, output, attempts },
            ),
            Operation::Confirmed { job_id: known, .. } if known == job_id => Guarded::Absorb,
            _ => Guarded::Refuse(OperationRefused::OutcomeMismatch),
        },
        OperationCommand::Fail { job_id, failure, attempts } => match state {
            Operation::Requested { job_id: running } if running == job_id => Guarded::Record(
                OperationEvent::Failed { job_id, failure, attempts },
            ),
            Operation::Failed { job_id: known, .. } if known == job_id => Guarded::Absorb,
            _ => Guarded::Refuse(OperationRefused::OutcomeMismatch),
        },
    }
}

/// Whether the event may take the operation from `before` to `after`.
pub open spec fn operation_evolved<J: OperationJob>(
    before: Operation<J>,
    event: OperationEvent<J>,
    after: Operation<J>,
) -> bool {
    match (before, event) {
        (Operation::Idle, OperationEvent::Requested { job_id }) => after == (Operation::<
            J,
        >::Requested { job_id }),
        (Operation::Failed { .. }, OperationEvent::Requested { job_id }) => after == (Operation::<
            J,
        >::Requested { job_id }),
        (
            Operation::Requested { job_id: running },
            OperationEvent::Confirmed { job_id, output, attempts },
        ) => running == job_id && (after matches Operation::Confirmed {
            job_id: settled,
            output: copy,
            attempts: counted,
        } && settled == job_id && counted == attempts && cloned(output, copy)),
        (
            Operation::Requested { job_id: running },
            OperationEvent::Failed { job_id, failure, attempts },
        ) => running == job_id && (after matches Operation::Failed {
            job_id: settled,
            failure: copy,
            attempts: counted,
        } && settled == job_id && counted == attempts && failure_copied(failure, copy)),
        _ => false,
    }
}

/// Whether the event can follow on the operation.
pub open spec fn operation_applies<J: OperationJob>(
    state: Operation<J>,
    event: OperationEvent<J>,
) -> bool {
    match (state, event) {
        (Operation::Idle, OperationEvent::Requested { .. }) => true,
        (Operation::Failed { .. }, OperationEvent::Requested { .. }) => true,
        (Operation::Requested { job_id: running }, OperationEvent::Confirmed { job_id, .. }) => {
            running == job_id
        },
        (Operation::Requested { job_id: running }, OperationEvent::Failed { job_id, .. }) => running
            == job_id,
        _ => false,
    }
}

/// Whether `push` enqueues the job.
pub open spec fn pushes<J: OperationJob>(job: J, push: PendingPush) -> bool {
    &&& push.kind.0@ == J::KIND@
    &&& call_ensures(J::encode, (&job,), push.payload)
    &&& push.delay is None
}

/// Whether the guard's word was kept: a request that is let through is recorded under the
/// identity of the job that it adds to the buffer, and nothing else touches the buffer.
pub open spec fn transitioned<J: OperationJob>(
    state: Operation<J>,
    command: OperationCommand<J>,
    before: Seq<PendingPush>,
    result: Result<Vec<OperationEvent<J>>, OperationRefused>,
    after: Seq<PendingPush>,
) -> bool {
    match guarded(state, command) {
        Guarded::Enqueue(job) => {
            &&& after.len() == before.len() + 1
            &&& after.drop_last() == before
            &&& pushes(job, after.last())
            &&& result matches Ok(events)
            &&& events@ == seq![OperationEvent::<J>::Requested { job_id: after.last().job_id }]
        },
        Guarded::Record(event) => after == before && (result matches Ok(events) && events@
            == seq![event]),
        Guarded::Absorb => after == before && (result matches Ok(events) && events@ == Seq::<
            OperationEvent<J>,
        >::empty()),
        Guarded::Refuse(refused) => after == before && result == Err::<
            Vec<OperationEvent<J>>,
            _,
        >(refused),
    }
}

impl<J: OperationJob> Default for Operation<J> {
    fn default() -> (operation: Self)
        ensures
            operation == Operation::<J>::Idle,
    {
        Operation::Idle
    }
}

impl<J: OperationJob> Operation<J> {
    /// The events that a command justifies. A request also enqueues its job, under the
    /// identity that the event records.
    pub fn transition(&self, command: OperationCommand<J>, jobs: &mut PendingJobs) -> (result:
        Result<Vec<OperationEvent<J>>, OperationRefused>)
        ensures
            transitioned(*self, command, old(jobs).pushes@, result, final(jobs).pushes@),
            !(guarded(*self, command) is Enqueue) ==> *final(jobs) == *old(jobs),
    {
        match (self, command) {
            (Operation::Idle, OperationCommand::Request(job)) => Ok(request(job, jobs)),
            (Operation::Failed { .. }, OperationCommand::Request(job)) => Ok(request(job, jobs)),
            (Operation::Requested { .. }, OperationCommand::Request(_)) => Err(
                OperationRefused::InFlight,
            ),
            (Operation::Confirmed { .. }, OperationCommand::Request(_)) => Err(
                OperationRefused::AlreadyConfirmed,
            ),
            (
                Operation::Requested { job_id: running },
                OperationCommand::Confirm { job_id, output, attempts },
            ) => {
                if *running == job_id {
                    let events = vec![OperationEvent::Confirmed { job_id, output, attempts }];
                    assert(events@ =~= seq![events@[0]]);
                    Ok(events)
                } else {
                    Err(OperationRefused::OutcomeMismatch)
                }
            },
            (
                Operation::Requested { job_id: running },
                OperationCommand::Fail { job_id, failure, attempts },
            ) => {
                if *running == job_id {
                    let events = vec![OperationEvent::Failed { job_id, failure, attempts }];
                    assert(events@ =~= seq![events@[0]]);
                    Ok(events)
                } else {
                    Err(OperationRefused::OutcomeMismatch)
                }
            },
            (
                Operation::Confirmed { job_id: known, .. },
                OperationCommand::Confirm { job_id, .. },
            ) => {
                if *known == job_id {
                    Ok(Vec::new())
                } else {
                    Err(OperationRefused::OutcomeMismatch)
                }
            },
            (Operation::Failed { job_id: known, .. }, OperationCommand::Fail { job_id, .. }) => {
                if *known == job_id {
                    Ok(Vec::new())
                } else {
                    Err(OperationRefused::OutcomeMismatch)
                }
            },
            _ => Err(OperationRefused::OutcomeMismatch),
        }
    }

    /// The state after one more event.
    pub fn evolve(&self, event: &OperationEvent<J>) -> (result: Result<Self, OperationReplay>)
        ensures
            match result {
                Ok(after) => operation_evolved(*self, *event, after),
                Err(_) => !operation_applies(*self, *event),
            },
    {
        match (self, event) {
            (Operation::Idle, OperationEvent::Requested { job_id }) => Ok(
                Operation::Requested { job_id: *job_id },
            ),
            (Operation::Failed { .. }, OperationEvent::Requested { job_id }) => Ok(
                Operation::Requested { job_id: *job_id },
            ),
            (
                Operation::Requested { job_id: running },
                OperationEvent::Confirmed { job_id, output, attempts },
            ) => {
                if *running == *job_id {
                    Ok(
                        Operation::Confirmed {
                            job_id: *job_id,
                            output: output.clone(),
                            attempts: *attempts,
                        },
                    )
                } else {
                    Err(OperationReplay)
                }
            },
            (
                Operation::Requested { job_id: running },
                OperationEvent::Failed { job_id, failure, attempts },
            ) => {
                if *running == *job_id {
                    Ok(
                        Operation::Failed {
                            job_id: *job_id,
                            failure: failure.clone(),
                            attempts: *attempts,
                        },
                    )
                } else {
                    Err(OperationReplay)
                }
            },
            _ => Err(OperationReplay),
        }
    }
}

/// Enqueues a job under a fresh identity, and records the request.
fn request<J: OperationJob>(job: J, jobs: &mut PendingJobs) -> (events: Vec<OperationEvent<J>>)
    ensures
        final(jobs).pushes@.len() == old(jobs).pushes@.len() + 1,
        final(jobs).pushes@.drop_last() == old(jobs).pushes@,
        pushes(job, final(jobs).pushes@.last()),
        events@ == seq![
            OperationEvent::<J>::Requested { job_id: final(jobs).pushes@.last().job_id },
        ],
{
    let job_id = JobId::new();
    let payload = job.encode();
    jobs.pushes.push(
        PendingPush { job_id, kind: JobKind(J::KIND.to_owned()), payload, delay: None },
    );
    assert(jobs.pushes@.drop_last() =~= old(jobs).pushes@);
    let events = vec![OperationEvent::Requested { job_id }];
    assert(events@ =~= seq![OperationEvent::<J>::Requested { job_id }]);
    events
}

/// What a run does with its outcome.
pub enum Outcome<J: OperationJob> {
    /// Delivers a command, and ends when the delivery is over.
    Deliver(OperationCommand<J>, Owed<J::Error>),
    /// Ends.
    Finish(Result<JobOutcome<()>, JobFailure<J::Error>>),
}

/// Whether `next` is what a run does with its outcome: a success and a rejection are
/// delivered; so is a failure that ends the job, and no other.
pub open spec fn outcome_settled<J: OperationJob>(
    ctx: JobContext,
    outcome: Result<JobOutcome<J::Output>, JobFailure<J::Error>>,
    detail: String,
    next: Outcome<J>,
) -> bool {
    let attempts = (ctx.attempt + 1) as u32;
    let job_id = ctx.job_id;
    match outcome {
        Ok(JobOutcome::Done(output)) => next == Outcome::<J>::Deliver(
            OperationCommand::Confirm { job_id, output, attempts },
            Owed::Success,
        ),
        Ok(JobOutcome::Defer(delay)) => next == Outcome::<J>::Finish(Ok(JobOutcome::Defer(delay))),
        Err(JobFailure::Terminal(error)) => next matches Outcome::Deliver(command, owed) && owed
            == Owed::Rejection(error) && (command matches OperationCommand::Fail {
            job_id: settled,
            failure,
            attempts: counted,
        } && settled == job_id && counted == attempts && (
        failure matches OperationFailure::Rejected(copy) && cloned(error, copy))),
        Err(JobFailure::Transient(error)) => if ctx.last() {
            next == Outcome::<J>::Deliver(
                OperationCommand::Fail {
                    job_id,
                    failure: OperationFailure::DeadLettered {
                        reason: DeadReason::RetriesExhausted,
                        detail,
                    },
                    attempts,
                },
                Owed::Failure(error),
            )
        } else {
            next == Outcome::<J>::Finish(Err(JobFailure::Transient(error)))
        },
    }
}

/// What a run does with its outcome; `detail` is the text of a failure's causes.
pub fn after_outcome<J: OperationJob>(
    ctx: &JobContext,
    outcome: Result<JobOutcome<J::Output>, JobFailure<J::Error>>,
    detail: String,
) -> (next: Outcome<J>)
    requires
        ctx.attempt < u32::MAX,
    ensures
        outcome_settled(*ctx, outcome, detail, next),
{
    let attempts: u32 = ctx.attempt + 1;
    let job_id = ctx.job_id;
    match outcome {
        Ok(JobOutcome::Done(output)) => Outcome::Deliver(
            OperationCommand::Confirm { job_id, output, attempts },
            Owed::Success,
        ),
        Ok(JobOutcome::Defer(delay)) => Outcome::Finish(Ok(JobOutcome::Defer(delay))),
        Err(JobFailure::Terminal(error)) => Outcome::Deliver(
            OperationCommand::Fail {
                job_id,
                failure: OperationFailure::Rejected(error.clone()),
                attempts,
            },
            Owed::Rejection(error),
        ),
        Err(JobFailure::Transient(error)) => {
            if ctx.is_final_attempt() {
                Outcome::Deliver(
                    OperationCommand::Fail {
                        job_id,
                        failure: OperationFailure::DeadLettered {
                            reason: DeadReason::RetriesExhausted,
                            detail,
                        },
                        attempts,
                    },
                    Owed::Failure(error),
                )
            } else {
                Outcome::Finish(Err(JobFailure::Transient(error)))
            }
        },
    }
}

/// How a run ends once its outcome was delivered or not.
pub open spec fn run_ended<Error>(
    owed: Owed<Error>,
    delivered: Result<(), OriginDeliveryError>,
) -> Result<JobOutcome<()>, JobFailure<Error>> {
    match (owed, delivered) {
        (Owed::Failure(error), _) => Err(JobFailure::Transient(error)),
        (_, Err(_)) => Ok(JobOutcome::Defer(Delay { secs: DELIVERY_RETRY_SECS, nanos: 0 })),
        (Owed::Success, Ok(())) => Ok(JobOutcome::Done(())),
        (Owed::Rejection(error), Ok(())) => Err(JobFailure::Terminal(error)),
    }
}

/// How a run ends once its outcome was delivered or not. An outcome that did not arrive
/// puts the job off without counting an attempt.
pub fn after_delivery<Error>(owed: Owed<Error>, delivered: Result<(), OriginDeliveryError>) -> (result:
    Result<JobOutcome<()>, JobFailure<Error>>)
    ensures
        result == run_ended(owed, delivered),
{
    match (owed, delivered) {
        (Owed::Failure(error), _) => Err(JobFailure::Transient(error)),
        (_, Err(_)) => Ok(JobOutcome::Defer(Delay::from_secs(DELIVERY_RETRY_SECS))),
        (Owed::Success, Ok(())) => Ok(JobOutcome::Done(())),
        (Owed::Rejection(error), Ok(())) => Err(JobFailure::Terminal(error)),
    }
}

/// The step by which a run goes on with its outcome.
pub open spec fn outcome_step<J: OperationJob>(next: Outcome<J>) -> RunStep<
    OperationCommand<J>,
    J::Error,
> {
    match next {
        Outcome::Deliver(command, owed) => RunStep::Deliver(command, owed),
        Outcome::Finish(result) => RunStep::End(result),
    }
}

/// Whether `step` is how a run goes on with its outcome.
pub open spec fn submitted_step<J: OperationJob>(
    ctx: JobContext,
    outcome: Result<JobOutcome<J::Output>, JobFailure<J::Error>>,
    detail: String,
    step: RunStep<OperationCommand<J>, J::Error>,
) -> bool {
    exists|next: Outcome<J>| #[trigger]
        outcome_settled(ctx, outcome, detail, next) && step == outcome_step(next)
}

/// Whether `step` is how a run goes on once it knows about an earlier one.
pub open spec fn reconciled_step<J: OperationJob>(
    ctx: JobContext,
    result: Result<Reconciliation<J::Output>, JobFailure<J::Error>>,
    detail: String,
    step: RunStep<OperationCommand<J>, J::Error>,
) -> bool {
    match result {
        Ok(Reconciliation::NotSubmitted) => step is Submit,
        Ok(Reconciliation::Indeterminate(delay)) => step == RunStep::<
            OperationCommand<J>,
            J::Error,
        >::End(Ok(JobOutcome::Defer(delay))),
        Ok(Reconciliation::Settled(output)) => submitted_step(
            ctx,
            Ok(JobOutcome::Done(output)),
            detail,
            step,
        ),
        Err(failure) => submitted_step(ctx, Err(failure), detail, step),
    }
}

/// How a run goes on once the outside was asked to do the job.
pub fn after_submitting<J: OperationJob>(
    ctx: &JobContext,
    outcome: Result<JobOutcome<J::Output>, JobFailure<J::Error>>,
    detail: String,
) -> (step: RunStep<OperationCommand<J>, J::Error>)
    requires
        ctx.attempt < u32::MAX,
    ensures
        submitted_step(*ctx, outcome, detail, step),
{
    let next = after_outcome::<J>(ctx, outcome, detail);
    assert(outcome_settled(*ctx, outcome, detail, next));
    match next {
        Outcome::Deliver(command, owed) => RunStep::Deliver(command, owed),
        Outcome::Finish(result) => RunStep::End(result),
    }
}

/// How a run goes on once it knows about an earlier one.
pub fn after_reconciling<J: OperationJob>(
    ctx: &JobContext,
    result: Result<Reconciliation<J::Output>, JobFailure<J::Error>>,
    detail: String,
) -> (step: RunStep<OperationCommand<J>, J::Error>)
    requires
        ctx.attempt < u32::MAX || result matches Ok(Reconciliation::NotSubmitted)
            || result matches Ok(Reconciliation::Indeterminate(_)),
    ensures
        reconciled_step(*ctx, result, detail, step),
{
    match after_reconcile(result) {
        Reconciled::Submit => RunStep::Submit,
        Reconciled::Defer(delay) => RunStep::End(Ok(JobOutcome::Defer(delay))),
        Reconciled::Outcome(outcome) => after_submitting::<J>(ctx, outcome, detail),
    }
}

/// How a run goes on once its outcome was delivered or not: it ends.
pub fn after_delivering<J: OperationJob>(
    owed: Owed<J::Error>,
    delivered: Result<(), OriginDeliveryError>,
) -> (step: RunStep<OperationCommand<J>, J::Error>)
    ensures
        step == RunStep::<OperationCommand<J>, J::Error>::End(run_ended(owed, delivered)),
{
    RunStep::End(after_delivery(owed, delivered))
}

/// A run submits at most once, and only where nothing can have arrived before. What
/// follows on a submission is neither another one nor another question.
pub proof fn law_runs_submit_only_what_never_arrived<J: OperationJob>(
    ctx: JobContext,
    result: Result<Reconciliation<J::Output>, JobFailure<J::Error>>,
    outcome: Result<JobOutcome<J::Output>, JobFailure<J::Error>>,
    detail: String,
    step: RunStep<OperationCommand<J>, J::Error>,
)
    ensures
        reconciled_step(ctx, result, detail, step) && step is Submit ==> (result matches Ok(known)
            && known is NotSubmitted),
        reconciled_step(ctx, result, detail, step) ==> !(step is Reconcile),
        submitted_step(ctx, outcome, detail, step) ==> !(step is Submit || step is Reconcile),
{
}

/// An outcome that is recorded can follow on the operation, and is absorbed when it is
/// delivered again.
pub proof fn law_outcomes_apply_and_are_absorbed<J: OperationJob>(
    state: Operation<J>,
    command: OperationCommand<J>,
    after: Operation<J>,
)
    requires
        guarded(state, command) is Record,
    ensures
        operation_applies(state, guarded(state, command)->Record_0),
        operation_evolved(state, guarded(state, command)->Record_0, after) ==> guarded(
            after,
            command,
        ) is Absorb,
{
}

/// A request that is let through can be recorded under any identity, and no other is let
/// through until its outcome is there.
pub proof fn law_one_request_at_a_time<J: OperationJob>(
    state: Operation<J>,
    job: J,
    job_id: JobId,
    after: Operation<J>,
    other: J,
)
    requires
        guarded(state, OperationCommand::Request(job)) is Enqueue,
    ensures
        operation_applies(state, OperationEvent::Requested { job_id }),
        operation_evolved(state, OperationEvent::Requested { job_id }, after) ==> guarded(
            after,
            OperationCommand::Request(other),
        ) == Guarded::<J>::Refuse(OperationRefused::InFlight),
{
}

/// An operation is confirmed only by the outcome of the job that drove it, and a
/// confirmed operation stays so.
pub proof fn law_confirmed_only_by_the_driving_job<J: OperationJob>(
    before: Operation<J>,
    event: OperationEvent<J>,
    after: Operation<J>,
)
    requires
        operation_evolved(before, event, after),
    ensures
        !(before is Confirmed),
        after matches Operation::Confirmed { job_id, .. } ==> before == (Operation::<
            J,
        >::Requested { job_id }),
        operation_applies(before, event),
{
}

/// A job ends with success or as rejected only once its outcome was delivered; one that
/// was not delivered never counts as a failed attempt.
pub proof fn law_outcomes_arrive_before_a_job_ends<Error>(
    owed: Owed<Error>,
    delivered: Result<(), OriginDeliveryError>,
)
    requires
        !(owed is Failure),
    ensures
        delivered is Err ==> (run_ended(owed, delivered) matches Ok(JobOutcome::Defer(_))),
        run_ended(owed, delivered) matches Ok(JobOutcome::Done(_)) ==> delivered is Ok,
        run_ended(owed, delivered) is Err ==> delivered is Ok,
        !(run_ended(owed, delivered) matches Err(JobFailure::Transient(_))),
{
}

/// A request is let through exactly where nothing is under way and nothing was confirmed.
/// An outcome is recorded, as it was delivered, by the operation that waits for its job;
/// one that was recorded before changes nothing, and any other is refused.
pub proof fn law_operations_take_what_they_wait_for<J: OperationJob>(
    state: Operation<J>,
    command: OperationCommand<J>,
)
    ensures
        match (guarded(state, command), command) {
            (Guarded::Enqueue(job), OperationCommand::Request(asked)) => job == asked && (
            state is Idle || state is Failed),
            (Guarded::Refuse(OperationRefused::InFlight), _) => command is Request
                && state is Requested,
            (Guarded::Refuse(OperationRefused::AlreadyConfirmed), _) => command is Request
                && state is Confirmed,
            (
                Guarded::Record(OperationEvent::Confirmed { job_id, output, attempts }),
                OperationCommand::Confirm {
                    job_id: told,
                    output: own_output,
                    attempts: own_attempts,
                },
            ) => job_id == told && output == own_output && attempts == own_attempts && state
                == (Operation::<J>::Requested { job_id: told }),
            (
                Guarded::Record(OperationEvent::Failed { job_id, failure, attempts }),
                OperationCommand::Fail {
                    job_id: told,
                    failure: own_failure,
                    attempts: own_attempts,
                },
            ) => job_id == told && failure == own_failure && attempts == own_attempts && state
                == (Operation::<J>::Requested { job_id: told }),
            (Guarded::Absorb, OperationCommand::Confirm { job_id, .. }) => {
                state matches Operation::Confirmed { job_id: known, .. } && known == job_id
            },
            (Guarded::Absorb, OperationCommand::Fail { job_id, .. }) => {
                state matches Operation::Failed { job_id: known, .. } && known == job_id
            },
            (
                Guarded::Refuse(OperationRefused::OutcomeMismatch),
                OperationCommand::Confirm { job_id, .. },
            ) => match state {
                Operation::Requested { job_id: known } => known != job_id,
                Operation::Confirmed { job_id: known, .. } => known != job_id,
                _ => true,
            },
            (
                Guarded::Refuse(OperationRefused::OutcomeMismatch),
                OperationCommand::Fail { job_id, .. },
            ) => match state {
                Operation::Requested { job_id: known } => known != job_id,
                Operation::Failed { job_id: known, .. } => known != job_id,
                _ => true,
            },
            _ => false,
        },
{
}

/// What events make of an operation: a request is under way under its own identity, and
/// the outcome of its job, and of no other, ends it with what was told.
pub proof fn law_events_move_operations_on<J: OperationJob>(
    before: Operation<J>,
    event: OperationEvent<J>,
    result: Result<Operation<J>, OperationReplay>,
)
    requires
        call_ensures(Operation::<J>::evolve, (&before, &event), result),
    ensures
        result is Ok <==> match event {
            OperationEvent::Requested { .. } => before is Idle || before is Failed,
            OperationEvent::Confirmed { job_id, .. } => before == (Operation::<J>::Requested {
                job_id,
            }),
            OperationEvent::Failed { job_id, .. } => before == (Operation::<J>::Requested {
                job_id,
            }),
        },
        result matches Ok(after) ==> match (event, after) {
            (
                OperationEvent::Requested { job_id },
                Operation::Requested { job_id: under_way },
            ) => under_way == job_id,
            (
                OperationEvent::Confirmed { job_id, output, attempts },
                Operation::Confirmed { job_id: kept, output: copy, attempts: counted },
            ) => kept == job_id && counted == attempts && cloned(output, copy),
            (
                OperationEvent::Failed { job_id, failure, attempts },
                Operation::Failed { job_id: kept, failure: copy, attempts: counted },
            ) => kept == job_id && counted == attempts && match (failure, copy) {
                (
                    OperationFailure::Rejected(error),
                    OperationFailure::Rejected(error_copy),
                ) => cloned(error, error_copy),
                (
                    OperationFailure::DeadLettered { reason, detail },
                    OperationFailure::DeadLettered { reason: kept_reason, detail: kept_detail },
                ) => reason == kept_reason && detail == kept_detail,
                _ => false,
            },
            _ => false,
        },
{
}

/// A run tells its entity of everything that ends the operation, and counts itself among
/// the attempts. A job that is to run again is not told of.
pub proof fn law_entities_are_told_of_the_end<J: OperationJob>(
    ctx: JobContext,
    outcome: Result<JobOutcome<J::Output>, JobFailure<J::Error>>,
    detail: String,
    next: Outcome<J>,
)
    requires
        ctx.attempt < u32::MAX,
        call_ensures(after_outcome::<J>, (&ctx, outcome, detail), next),
    ensures
        match (outcome, next) {
            (
                Ok(JobOutcome::Done(output)),
                Outcome::Deliver(
                    OperationCommand::Confirm { job_id, output: told, attempts },
                    owed,
                ),
            ) => job_id == ctx.job_id && told == output && attempts == ctx.attempt + 1
                && owed is Success,
            (Ok(JobOutcome::Defer(delay)), Outcome::Finish(Ok(JobOutcome::Defer(wait)))) => wait
                == delay,
            (
                Err(JobFailure::Terminal(error)),
                Outcome::Deliver(
                    OperationCommand::Fail {
                        job_id,
                        failure: OperationFailure::Rejected(copy),
                        attempts,
                    },
                    owed,
                ),
            ) => job_id == ctx.job_id && cloned(error, copy) && attempts == ctx.attempt + 1 && owed
                == Owed::Rejection(error),
            (
                Err(JobFailure::Transient(error)),
                Outcome::Deliver(
                    OperationCommand::Fail {
                        job_id,
                        failure: OperationFailure::DeadLettered { reason, detail: said },
                        attempts,
                    },
                    owed,
                ),
            ) => job_id == ctx.job_id && reason is RetriesExhausted && said == detail && attempts
                == ctx.attempt + 1 && owed == Owed::Failure(error) && ctx.max_attempts > 0
                && ctx.attempt + 1 >= ctx.max_attempts,
            (
                Err(JobFailure::Transient(error)),
                Outcome::Finish(Err(JobFailure::Transient(own))),
            ) => own == error && (ctx.max_attempts == 0 || ctx.attempt + 1 < ctx.max_attempts),
            _ => false,
        },
{
}

/// How a run ends: as it owes where its outcome arrived; where it did not, the job is put
/// off for five seconds and no attempt is counted. Only a job that ends anyway ends all
/// the same.
pub proof fn law_undelivered_outcomes_put_the_job_off<Error>(
    owed: Owed<Error>,
    delivered: Result<(), OriginDeliveryError>,
    result: Result<JobOutcome<()>, JobFailure<Error>>,
)
    requires
        call_ensures(after_delivery::<Error>, (owed, delivered), result),
    ensures
        match (owed, delivered, result) {
            (Owed::Failure(error), _, Err(JobFailure::Transient(own))) => own == error,
            (Owed::Success, Ok(()), Ok(JobOutcome::Done(_))) => true,
            (Owed::Rejection(error), Ok(()), Err(JobFailure::Terminal(own))) => own == error,
            (Owed::Failure(_), _, _) => false,
            (_, Err(_), Ok(JobOutcome::Defer(wait))) => wait.secs * 1_000_000_000 + wait.nanos
                == 5_000_000_000,
            _ => false,
        },
{
}

/// A request enqueues exactly one job, at once and as the job gives itself, behind those
/// that wait already, and records it under its identity; it does so exactly where nothing
/// is under way and nothing was confirmed. No other command enqueues anything.
pub proof fn law_requests_enqueue_what_they_record<J: OperationJob>(
    state: Operation<J>,
    command: OperationCommand<J>,
    before: Seq<PendingPush>,
    result: Result<Vec<OperationEvent<J>>, OperationRefused>,
    after: Seq<PendingPush>,
)
    requires
        transitioned(state, command, before, result, after),
    ensures
        match (command, result) {
            (OperationCommand::Request(job), Ok(events)) => {
                &&& state is Idle || state is Failed
                &&& after.len() == before.len() + 1
                &&& forall|i: int| 0 <= i < before.len() ==> #[trigger] after[i] == before[i]
                &&& after.last().kind.0@ == J::KIND@
                &&& after.last().delay is None
                &&& call_ensures(J::encode, (&job,), after.last().payload)
                &&& events@.len() == 1
                &&& events@[0] == OperationEvent::<J>::Requested { job_id: after.last().job_id }
            },
            (OperationCommand::Request(_), Err(refused)) => {
                &&& after == before
                &&& state is Requested <==> refused is InFlight
                &&& state is Confirmed <==> refused is AlreadyConfirmed
                &&& state is Requested || state is Confirmed
            },
            (_, Ok(events)) => after == before && events@.len() <= 1 && !(state is Idle),
            (_, Err(refused)) => after == before && refused is OutcomeMismatch,
        },
{
    if guarded(state, command) is Enqueue {
        assert forall|i: int| 0 <= i < before.len() implies #[trigger] after[i] == before[i] by {
            assert(after.drop_last()[i] == before[i]);
        }
    }
}

/// How a run goes on follows from what came back: it delivers what it settled, and else
/// ends with it; where an earlier run was asked about, what became of it counts as its own.
pub proof fn law_runs_go_on_with_what_came_back<J: OperationJob>(
    ctx: JobContext,
    outcome: Result<JobOutcome<J::Output>, JobFailure<J::Error>>,
    known: Result<Reconciliation<J::Output>, JobFailure<J::Error>>,
    detail: String,
    submitted: RunStep<OperationCommand<J>, J::Error>,
    reconciled: RunStep<OperationCommand<J>, J::Error>,
)
    requires
        ctx.attempt < u32::MAX,
        call_ensures(after_submitting::<J>, (&ctx, outcome, detail), submitted),
        call_ensures(after_reconciling::<J>, (&ctx, known, detail), reconciled),
    ensures
        match (outcome, submitted) {
            (
                Ok(JobOutcome::Done(output)),
                RunStep::Deliver(
                    OperationCommand::Confirm { job_id, output: told, attempts },
                    owed,
                ),
            ) => owed is Success && job_id == ctx.job_id && told == output && attempts
                == ctx.attempt + 1,
            (Ok(JobOutcome::Defer(delay)), RunStep::End(Ok(JobOutcome::Defer(wait)))) => wait
                == delay,
            (Err(JobFailure::Terminal(error)), RunStep::Deliver(command, owed)) => owed
                == Owed::Rejection(error) && command is Fail,
            (Err(JobFailure::Transient(error)), RunStep::Deliver(command, owed)) => owed
                == Owed::Failure(error) && command is Fail && ctx.max_attempts > 0 && ctx.attempt
                + 1 >= ctx.max_attempts,
            (Err(JobFailure::Transient(error)), RunStep::End(Err(JobFailure::Transient(own)))) => {
                own == error && (ctx.max_attempts == 0 || ctx.attempt + 1 < ctx.max_attempts)
            },
            _ => false,
        },
        match (known, reconciled) {
            (Ok(Reconciliation::NotSubmitted), RunStep::Submit) => true,
            (
                Ok(Reconciliation::Indeterminate(delay)),
                RunStep::End(Ok(JobOutcome::Defer(wait))),
            ) => wait == delay,
            (
                Ok(Reconciliation::Settled(output)),
                RunStep::Deliver(OperationCommand::Confirm { output: told, .. }, owed),
            ) => owed is Success && told == output,
            (Err(JobFailure::Terminal(error)), RunStep::Deliver(command, owed)) => owed
                == Owed::Rejection(error) && command is Fail,
            (Err(JobFailure::Transient(error)), RunStep::Deliver(command, owed)) => owed
                == Owed::Failure(error) && command is Fail,
            (Err(JobFailure::Transient(error)), RunStep::End(Err(JobFailure::Transient(own)))) => {
                own == error
            },
            _ => false,
        },
{
}

/// A copy of an operation is of the same kind and on the same job.
pub proof fn law_copies_are_on_the_same_job<J: OperationJob>(
    state: Operation<J>,
    copy: Operation<J>,
)
    requires
        operation_copied(state, copy),
    ensures
        match (state, copy) {
            (Operation::Idle, Operation::Idle) => true,
            (Operation::Requested { job_id }, Operation::Requested { job_id: id_copy }) => id_copy
                == job_id,
            (
                Operation::Confirmed { job_id, attempts, .. },
                Operation::Confirmed { job_id: id_copy, attempts: counted, .. },
            ) => id_copy == job_id && counted == attempts,
            (
                Operation::Failed { job_id, attempts, .. },
                Operation::Failed { job_id: id_copy, attempts: counted, .. },
            ) => id_copy == job_id && counted == attempts,
            _ => false,
        },
{
}

/// An operation answers a command as its guard says, on whatever buffer it is given.
pub proof fn law_operations_answer_as_guarded<J: OperationJob>(
    state: Operation<J>,
    command: OperationCommand<J>,
)
    ensures
        forall|jobs: &mut PendingJobs, result: Result<Vec<OperationEvent<J>>, OperationRefused>|
            #[trigger] call_ensures(
                Operation::<J>::transition,
                (&state, command, jobs),
                result,
            ) ==> {
                &&& transitioned(state, command, jobs.pushes@, result, final(jobs).pushes@)
                &&& !(command is Request) ==> final(jobs).pushes@ == jobs.pushes@
                &&& command is Request && state is Idle ==> result is Ok
                    && final(jobs).pushes@.len() == jobs.pushes@.len() + 1
            },
{
}

} // verus!
