//! What a job worker decides: how a claim is run, renewed and acknowledged.
//!
//! The worker itself waits, talks to the store and runs the jobs. Each function here
//! takes what came back and says what to do next.

use vstd::prelude::*;

use crate::dispatch::DeliveryPolicy;
use crate::job::{
    state_evolved, DeadReason, JobCommand, JobContext, JobError, JobFailure, JobId, JobOutcome,
    JobState, WonClaim, attempt_of, claims_of, holds, kind_of, payload_of, runnable,
};
use crate::job_store::{ClaimOutcome, LeaseRenewal};
use crate::lifecycle::LifecycleError;
use crate::time::{
    representable, Delay, MAX_UTC_MILLIS, NANOS_PER_MILLI, NANOS_PER_SEC,
};

verus! {

/// How a job worker is tuned. How long it waits between retries is not part of it:
/// the worker hands that delay in.
#[derive(Clone, Copy, Debug, Eq, PartialEq, Structural)]
pub struct JobWorkerConfig {
    /// How long to wait after a poll that found nothing.
    pub poll_interval: Delay,
    /// How many candidates one poll looks at.
    pub scan_limit: i64,
    /// How many jobs run at once.
    pub max_concurrency: usize,
    /// How long a claim stands before another worker may take the job.
    pub lease_duration: Delay,
    /// How often a running job's lease is renewed.
    pub renew_interval: Delay,
    /// How long one run may take.
    pub execution_timeout: Delay,
    /// How many failures are recorded before the job is given up.
    pub max_attempts: u32,
    /// How often a job may be claimed before it is given up.
    pub max_claims: u32,
    /// How long to wait after a verdict that could not be delivered.
    pub delivery: DeliveryPolicy,
}

impl Default for JobWorkerConfig {
    fn default() -> (config: Self)
        ensures
            config == (JobWorkerConfig {
                poll_interval: Delay { secs: 0, nanos: 250_000_000 },
                scan_limit: 16,
                max_concurrency: 8,
                lease_duration: Delay { secs: 30, nanos: 0 },
                renew_interval: Delay { secs: 10, nanos: 0 },
                execution_timeout: Delay { secs: 300, nanos: 0 },
                max_attempts: 5,
                max_claims: 50,
                delivery: DeliveryPolicy {
                    retry_delay: Delay { secs: 5, nanos: 0 },
                    refused_backoff: Delay { secs: 300, nanos: 0 },
                },
            }),
    {
        Self {
            poll_interval: Delay::from_millis(250),
            scan_limit: 16,
            max_concurrency: 8,
            lease_duration: Delay::from_secs(30),
            renew_interval: Delay::from_secs(10),
            execution_timeout: Delay::from_secs(300),
            max_attempts: 5,
            max_claims: 50,
            delivery: DeliveryPolicy::default(),
        }
    }
}

/// The lease that is taken for a duration too long to count.
pub const FALLBACK_LEASE_SECS: u64 = 30;

pub const FALLBACK_LEASE_MILLIS: i64 = 30_000;

/// Whether a duration can be counted in milliseconds by a signed 64-bit number.
pub open spec fn countable(duration: Delay) -> bool {
    duration.total_nanos() <= i64::MAX * NANOS_PER_MILLI
}

/// The duration by which an instant is moved: `duration` itself where it can be
/// counted, else the fallback lease.
pub open spec fn moved_by(duration: Delay) -> Delay {
    if countable(duration) {
        duration
    } else {
        Delay { secs: FALLBACK_LEASE_SECS, nanos: 0 }
    }
}

/// The instant `wait` after `now`, in milliseconds rounded down.
pub open spec fn instant_after(now: (i64, u32), wait: Delay) -> int {
    (now.0 * NANOS_PER_SEC + now.1 + moved_by(wait).total_nanos()) / (NANOS_PER_MILLI as int)
}

/// Whether `now` is a representable instant and stays one when it is moved by `wait`.
pub open spec fn can_be_moved(now: (i64, u32), wait: Delay) -> bool {
    &&& representable(now.0 * 1000)
    &&& now.1 < NANOS_PER_SEC
    &&& instant_after(now, wait) <= MAX_UTC_MILLIS
}

/// The duration by which an instant is moved.
pub fn lease_delta(duration: Delay) -> (delta: Delay)
    ensures
        delta == moved_by(duration),
{
    if duration.as_nanos() <= i64::MAX as i128 * NANOS_PER_MILLI {
        duration
    } else {
        Delay::from_secs(FALLBACK_LEASE_SECS)
    }
}

/// A lease in whole milliseconds; the fallback lease where it has too many.
pub fn lease_millis(duration: Delay) -> (millis: i64)
    ensures
        ({
            let counted = duration.total_nanos() / (NANOS_PER_MILLI as int);
            millis == if counted <= i64::MAX {
                counted
            } else {
                FALLBACK_LEASE_MILLIS as int
            }
        }),
{
    let counted: i128 = duration.as_nanos() / NANOS_PER_MILLI;
    if counted <= i64::MAX as i128 {
        counted as i64
    } else {
        FALLBACK_LEASE_MILLIS
    }
}

/// The instant `wait` after `now`, in milliseconds rounded down. `now` is in seconds
/// since the Unix epoch, and nanoseconds on top of them.
pub fn later_millis(now: (i64, u32), wait: Delay) -> (millis: i64)
    requires
        can_be_moved(now, wait),
    ensures
        millis == instant_after(now, wait),
{
    let delta: Delay = lease_delta(wait);
    let nanos: i128 = now.1 as i128 + delta.nanos as i128;
    let millis: i128 = (now.0 as i128 + delta.secs as i128) * 1000 + nanos / NANOS_PER_MILLI;
    assert(millis == instant_after(now, wait));
    millis as i64
}

/// Until when a lease holds that is renewed at `now`.
pub fn renewed_lease(config: &JobWorkerConfig, now: (i64, u32)) -> (lease_until_ms: i64)
    requires
        can_be_moved(now, config.lease_duration),
    ensures
        lease_until_ms == instant_after(now, config.lease_duration),
{
    later_millis(now, config.lease_duration)
}

/// What the worker hands to the run of a job that it claimed.
pub fn job_context(config: &JobWorkerConfig, job_id: JobId, won: &WonClaim) -> (ctx: JobContext)
    ensures
        ctx.job_id == job_id,
        ctx.claim_seq == won.claim_seq,
        ctx.claim_id == won.claim_id,
        ctx.attempt == won.attempt,
        ctx.max_attempts == config.max_attempts,
        ctx.delivery == config.delivery,
{
    JobContext {
        job_id,
        claim_seq: won.claim_seq,
        claim_id: won.claim_id.clone(),
        attempt: won.attempt,
        max_attempts: config.max_attempts,
        delivery: config.delivery,
    }
}

/// What a poll does after it tried to claim a candidate.
#[derive(Debug)]
pub enum PollStep<Won> {
    /// Run the job that was claimed.
    Run(Won),
    /// Try the next candidate.
    Next,
    /// Leave the other candidates for the next poll.
    Idle,
}

/// What a poll does after it tried to claim a candidate: only an error ends it early.
pub fn after_claim<Won, Error>(outcome: Result<ClaimOutcome<Won>, Error>) -> (step: PollStep<Won>)
    ensures
        step == match outcome {
            Ok(ClaimOutcome::Won(won)) => PollStep::Run(won),
            Ok(_) => PollStep::Next,
            Err(_) => PollStep::Idle,
        },
{
    match outcome {
        Ok(ClaimOutcome::Won(won)) => PollStep::Run(won),
        Ok(ClaimOutcome::Abandoned) => PollStep::Next,
        Ok(ClaimOutcome::Contended) => PollStep::Next,
        Ok(ClaimOutcome::Skip) => PollStep::Next,
        Err(_) => PollStep::Idle,
    }
}

/// Whether renewing goes on. It ends only once the lease is known to be lost: an error
/// says nothing of the lease.
pub fn after_renewal<Error>(renewal: &Result<LeaseRenewal, Error>) -> (goes_on: bool)
    ensures
        goes_on <==> *renewal != Ok::<LeaseRenewal, Error>(LeaseRenewal::Lost),
{
    match renewal {
        Ok(LeaseRenewal::Lost) => false,
        Ok(LeaseRenewal::Held) => true,
        Err(_) => true,
    }
}

/// The messages of an error and its causes, in one line.
pub open spec fn chained(messages: Seq<String>) -> Seq<char>
    decreases messages.len(),
{
    if messages.len() == 0 {
        Seq::empty()
    } else if messages.len() == 1 {
        messages[0]@
    } else {
        chained(messages.drop_last()) + ": "@ + messages.last()@
    }
}

/// The messages of an error and its causes, the outermost first, in one line.
pub fn error_chain(messages: &Vec<String>) -> (line: String)
    ensures
        line@ == chained(messages@),
{
    let mut line = String::new();
    let mut index: usize = 0;
    while index < messages.len()
        invariant
            index <= messages.len(),
            line@ == chained(messages@.take(index as int)),
        decreases messages.len() - index,
    {
        proof {
            let longer = messages@.take(index + 1);
            assert(longer.drop_last() =~= messages@.take(index as int));
            assert(longer.last() == messages@[index as int]);
        }
        if index > 0 {
            line.append(": ");
        }
        line.append(messages[index].as_str());
        index = index + 1;
    }
    assert(messages@.take(index as int) =~= messages@);
    line
}

/// The command by which a failure is recorded: one more attempt, or the end where it
/// exhausts the budget.
pub open spec fn failure_recorded(
    config: JobWorkerConfig,
    now: (i64, u32),
    retry_delay: Delay,
    ctx: JobContext,
    error: String,
) -> JobCommand {
    let failed = ctx.attempt + 1;
    if failed >= config.max_attempts {
        JobCommand::Kill {
            claim_id: ctx.claim_id,
            reason: DeadReason::RetriesExhausted,
            error,
        }
    } else {
        JobCommand::RetrySchedule {
            claim_id: ctx.claim_id,
            run_at: instant_after(now, retry_delay) as i64,
            attempt: failed as u32,
            error,
        }
    }
}

/// The command by which a run is acknowledged, where all that counts is whether it
/// succeeded.
pub fn ack_command(
    config: &JobWorkerConfig,
    now: (i64, u32),
    retry_delay: Delay,
    ctx: &JobContext,
    succeeded: bool,
    error_text: String,
) -> (command: JobCommand)
    requires
        !succeeded ==> ctx.attempt < u32::MAX,
        !succeeded && ctx.attempt + 1 < config.max_attempts ==> can_be_moved(now, retry_delay),
    ensures
        command == if succeeded {
            JobCommand::Succeed { claim_id: ctx.claim_id }
        } else {
            failure_recorded(*config, now, retry_delay, *ctx, error_text)
        },
{
    if succeeded {
        return JobCommand::Succeed { claim_id: ctx.claim_id.clone() };
    }
    let failed: u32 = ctx.attempt + 1;
    if failed >= config.max_attempts {
        return JobCommand::Kill {
            claim_id: ctx.claim_id.clone(),
            reason: DeadReason::RetriesExhausted,
            error: error_text,
        };
    }
    let run_at: i64 = later_millis(now, retry_delay);
    JobCommand::RetrySchedule {
        claim_id: ctx.claim_id.clone(),
        run_at,
        attempt: failed,
        error: error_text,
    }
}

/// The command by which a run is acknowledged: success, a later run that costs no
/// attempt, the end of a job that cannot succeed, or a recorded failure.
pub open spec fn acknowledged(
    config: JobWorkerConfig,
    now: (i64, u32),
    retry_delay: Delay,
    ctx: JobContext,
    report: Result<JobOutcome<()>, JobFailure<String>>,
) -> JobCommand {
    match report {
        Ok(JobOutcome::Done(_)) => JobCommand::Succeed { claim_id: ctx.claim_id },
        Ok(JobOutcome::Defer(delay)) => JobCommand::Reschedule {
            claim_id: ctx.claim_id,
            run_at: instant_after(now, delay) as i64,
        },
        Err(JobFailure::Terminal(error)) => JobCommand::Kill {
            claim_id: ctx.claim_id,
            reason: DeadReason::Rejected,
            error,
        },
        Err(JobFailure::Transient(error)) => failure_recorded(
            config,
            now,
            retry_delay,
            ctx,
            error,
        ),
    }
}

/// Whether the report can be acknowledged: the attempts can be counted, and the next
/// run is a representable instant.
pub open spec fn can_be_acknowledged(
    config: JobWorkerConfig,
    now: (i64, u32),
    retry_delay: Delay,
    ctx: JobContext,
    report: Result<JobOutcome<()>, JobFailure<String>>,
) -> bool {
    match report {
        Ok(JobOutcome::Defer(delay)) => can_be_moved(now, delay),
        Err(JobFailure::Transient(_)) => ctx.attempt < u32::MAX && (ctx.attempt + 1
            < config.max_attempts ==> can_be_moved(now, retry_delay)),
        _ => true,
    }
}

/// The command by which what a run reported is acknowledged.
pub fn outcome_command(
    config: &JobWorkerConfig,
    now: (i64, u32),
    retry_delay: Delay,
    ctx: &JobContext,
    report: Result<JobOutcome<()>, JobFailure<String>>,
) -> (command: JobCommand)
    requires
        can_be_acknowledged(*config, now, retry_delay, *ctx, report),
    ensures
        command == acknowledged(*config, now, retry_delay, *ctx, report),
{
    match report {
        Ok(JobOutcome::Done(_)) => JobCommand::Succeed { claim_id: ctx.claim_id.clone() },
        Ok(JobOutcome::Defer(delay)) => {
            let run_at: i64 = later_millis(now, delay);
            JobCommand::Reschedule { claim_id: ctx.claim_id.clone(), run_at }
        },
        Err(JobFailure::Terminal(error)) => JobCommand::Kill {
            claim_id: ctx.claim_id.clone(),
            reason: DeadReason::Rejected,
            error,
        },
        Err(JobFailure::Transient(error)) => ack_command(
            config,
            now,
            retry_delay,
            ctx,
            false,
            error,
        ),
    }
}

/// How a run ended.
#[derive(Debug)]
pub enum RunEnd {
    /// The job reported.
    Returned(Result<JobOutcome<()>, JobFailure<String>>),
    /// The run took too long; the text says how long it may take.
    TimedOut(String),
}

/// What a run counts as: what the job reported, or a failure that may be retried.
pub open spec fn reported(
    end: RunEnd,
    report: Result<JobOutcome<()>, JobFailure<String>>,
) -> bool {
    match end {
        RunEnd::Returned(own) => report == own,
        RunEnd::TimedOut(limit) => report matches Err(JobFailure::Transient(error)) && error@
            == "job execution exceeded "@ + limit@,
    }
}

/// What a run counts as.
pub fn run_report(end: RunEnd) -> (report: Result<JobOutcome<()>, JobFailure<String>>)
    ensures
        reported(end, report),
{
    match end {
        RunEnd::Returned(report) => report,
        RunEnd::TimedOut(limit) => {
            let mut error = "job execution exceeded ".to_owned();
            error.append(limit.as_str());
            Err(JobFailure::Transient(error))
        },
    }
}

/// The command by which a run is acknowledged; none where the lease was lost, since the
/// outcome then belongs to whoever claimed the job again.
pub fn acknowledgement(
    config: &JobWorkerConfig,
    now: (i64, u32),
    retry_delay: Delay,
    ctx: &JobContext,
    lost: bool,
    report: Result<JobOutcome<()>, JobFailure<String>>,
) -> (command: Option<JobCommand>)
    requires
        !lost ==> can_be_acknowledged(*config, now, retry_delay, *ctx, report),
    ensures
        command == if lost {
            None
        } else {
            Some(acknowledged(*config, now, retry_delay, *ctx, report))
        },
{
    if lost {
        None
    } else {
        Some(outcome_command(config, now, retry_delay, ctx, report))
    }
}

/// How the store answered an acknowledgement.
#[derive(Debug)]
pub enum AckReply {
    /// It is recorded.
    Recorded,
    /// The job refused it.
    Refused(LifecycleError<JobState>),
    /// Another event took its place.
    Conflict,
    /// The database could not be reached.
    Connection,
    /// The stored job could not be read.
    Deserialization,
    Unexpected,
}

/// What a worker does after it sent an acknowledgement.
#[derive(Clone, Copy, Debug, Eq, PartialEq, Structural)]
pub enum AckStep {
    /// It is done.
    Done,
    /// Another claim owns the outcome. A job that succeeded may then run twice.
    Fenced { double_execution: bool },
    /// The outcome cannot be recorded.
    GiveUp,
    /// Send it again after this delay.
    RetryAfter(Delay),
}

/// How long a worker waits before it sends an acknowledgement again.
pub const ACK_RETRY_MILLIS: u64 = 50;

/// Whether the reply says that another claim owns the outcome.
pub open spec fn fenced_out(reply: AckReply) -> bool {
    match reply {
        AckReply::Conflict => true,
        AckReply::Refused(LifecycleError::Apply(_)) => true,
        _ => false,
    }
}

/// What a worker does after it sent an acknowledgement: it sends it again only where
/// the database could not be reached.
pub fn after_ack(reply: AckReply, succeeded: bool) -> (step: AckStep)
    ensures
        match reply {
            AckReply::Recorded => step is Done,
            AckReply::Connection => step matches AckStep::RetryAfter(delay)
                && delay.total_nanos() == ACK_RETRY_MILLIS * NANOS_PER_MILLI,
            _ => if fenced_out(reply) {
                step == (AckStep::Fenced { double_execution: succeeded })
            } else {
                step is GiveUp
            },
        },
{
    match reply {
        AckReply::Recorded => AckStep::Done,
        AckReply::Refused(LifecycleError::Apply(JobError::Fenced)) => AckStep::Fenced {
            double_execution: succeeded,
        },
        AckReply::Conflict => AckStep::Fenced { double_execution: succeeded },
        AckReply::Refused(_) => AckStep::GiveUp,
        AckReply::Connection => AckStep::RetryAfter(Delay::from_millis(ACK_RETRY_MILLIS)),
        AckReply::Deserialization => AckStep::GiveUp,
        AckReply::Unexpected => AckStep::GiveUp,
    }
}

/// Every acknowledgement comes from the claim of its run, so it is recorded if and
/// only if that claim still holds the job.
pub proof fn law_acknowledgements_are_fenced(
    config: JobWorkerConfig,
    now: (i64, u32),
    retry_delay: Delay,
    ctx: JobContext,
    report: Result<JobOutcome<()>, JobFailure<String>>,
    state: JobState,
)
    ensures
        acknowledged(config, now, retry_delay, ctx, report).claim() == ctx.claim_id,
        holds(state, acknowledged(config, now, retry_delay, ctx, report).claim()) <==> holds(
            state,
            ctx.claim_id,
        ),
{
}

/// A failed run ends the job exactly where its context called the run the final
/// attempt, as long as the worker has a retry budget.
pub proof fn law_final_attempts_end_the_job(
    config: JobWorkerConfig,
    now: (i64, u32),
    retry_delay: Delay,
    ctx: JobContext,
    error: String,
)
    requires
        ctx.max_attempts == config.max_attempts,
        config.max_attempts > 0,
    ensures
        failure_recorded(config, now, retry_delay, ctx, error) is Kill <==> ctx.last(),
{
}

/// A deferral costs no attempt: the job that it leaves pending keeps its kind, its
/// payload and its recorded failures, and its claims start again from nothing.
pub proof fn law_deferrals_cost_no_attempt(
    config: JobWorkerConfig,
    now: (i64, u32),
    retry_delay: Delay,
    ctx: JobContext,
    delay: Delay,
    state: JobState,
)
    requires
        holds(state, ctx.claim_id),
    ensures
        ({
            let report = Ok::<JobOutcome<()>, JobFailure<String>>(JobOutcome::Defer(delay));
            let command = acknowledged(config, now, retry_delay, ctx, report);
            let after = state_evolved(state, command.event());
            &&& after matches Some(next)
            &&& next is Pending
            &&& attempt_of(next) == attempt_of(state)
            &&& claims_of(next) == 0
            &&& kind_of(next) == kind_of(state)
            &&& payload_of(next) == payload_of(state)
        }),
{
}

/// After a failure that is not the last one the job waits out its backoff: it is pending
/// again, with one failure more, and nobody may claim it before the delay is over. A delay
/// that cannot be counted is taken for half a minute.
pub proof fn law_retries_wait_out_their_backoff(
    config: JobWorkerConfig,
    now: (i64, u32),
    retry_delay: Delay,
    ctx: JobContext,
    error: String,
    command: JobCommand,
    state: JobState,
    lease_until_ms: Option<i64>,
    early_ms: i64,
)
    requires
        ctx.attempt + 1 < config.max_attempts,
        can_be_moved(now, retry_delay),
        call_ensures(
            outcome_command,
            (&config, now, retry_delay, &ctx, Err(JobFailure::Transient(error))),
            command,
        ),
        holds(state, ctx.claim_id),
    ensures
        ({
            let asked = retry_delay.secs * 1_000_000_000 + retry_delay.nanos;
            let wait = if asked <= i64::MAX * 1_000_000 {
                asked
            } else {
                30_000_000_000
            };
            let due = now.0 * 1_000_000_000 + now.1 + wait;
            match state_evolved(state, command.event()) {
                Some(JobState::Pending { run_at, attempt, .. }) => {
                    &&& run_at * 1_000_000 <= due < (run_at + 1) * 1_000_000
                    &&& attempt == ctx.attempt + 1
                    &&& (early_ms + 1) * 1_000_000 <= due ==> !runnable(
                        state_evolved(state, command.event())->0,
                        lease_until_ms,
                        early_ms,
                    )
                    &&& early_ms * 1_000_000 >= due ==> runnable(
                        state_evolved(state, command.event())->0,
                        lease_until_ms,
                        early_ms,
                    )
                },
                _ => false,
            }
        }),
{
}

/// A job that asks to be put off waits for as long as it asked, and no failure is counted.
pub proof fn law_deferrals_wait_as_long_as_they_ask(
    config: JobWorkerConfig,
    now: (i64, u32),
    retry_delay: Delay,
    ctx: JobContext,
    delay: Delay,
    command: JobCommand,
    state: JobState,
)
    requires
        can_be_moved(now, delay),
        call_ensures(
            outcome_command,
            (&config, now, retry_delay, &ctx, Ok(JobOutcome::Defer(delay))),
            command,
        ),
        holds(state, ctx.claim_id),
    ensures
        ({
            let asked = delay.secs * 1_000_000_000 + delay.nanos;
            let wait = if asked <= i64::MAX * 1_000_000 {
                asked
            } else {
                30_000_000_000
            };
            let due = now.0 * 1_000_000_000 + now.1 + wait;
            match (state, state_evolved(state, command.event())) {
                (
                    JobState::Claimed { attempt, .. },
                    Some(JobState::Pending { run_at, attempt: failures, claims, .. }),
                ) => run_at * 1_000_000 <= due < (run_at + 1) * 1_000_000 && failures == attempt
                    && claims == 0,
                _ => false,
            }
        }),
{
}

/// How a run ends its job: success leaves it done, a rejection gives it up at once,
/// whatever is left of the budget, and a failure gives it up exactly where it uses the
/// budget up. The command speaks for the claim of the run, and what it records is the
/// run's own error.
pub proof fn law_runs_end_their_jobs(
    config: JobWorkerConfig,
    now: (i64, u32),
    retry_delay: Delay,
    ctx: JobContext,
    report: Result<JobOutcome<()>, JobFailure<String>>,
    command: JobCommand,
    state: JobState,
)
    requires
        can_be_acknowledged(config, now, retry_delay, ctx, report),
        call_ensures(outcome_command, (&config, now, retry_delay, &ctx, report), command),
        holds(state, ctx.claim_id),
    ensures
        ({
            let after = state_evolved(state, command.event());
            match report {
                Ok(JobOutcome::Done(_)) => after == Some(JobState::Done),
                Ok(JobOutcome::Defer(_)) => after is Some && after->0 is Pending,
                Err(JobFailure::Terminal(error)) => after == Some(
                    JobState::Dead { reason: DeadReason::Rejected },
                ) && (command matches JobCommand::Kill { error: recorded, .. } && recorded
                    == error),
                Err(JobFailure::Transient(error)) => if ctx.attempt + 1 >= config.max_attempts {
                    after == Some(JobState::Dead { reason: DeadReason::RetriesExhausted }) && (
                    command matches JobCommand::Kill { error: recorded, .. } && recorded == error)
                } else {
                    after is Some && after->0 is Pending && (
                    command matches JobCommand::RetrySchedule { error: recorded, .. } && recorded
                        == error)
                },
            }
        }),
        match command {
            JobCommand::Succeed { claim_id } => claim_id == ctx.claim_id,
            JobCommand::RetrySchedule { claim_id, .. } => claim_id == ctx.claim_id,
            JobCommand::Reschedule { claim_id, .. } => claim_id == ctx.claim_id,
            JobCommand::Kill { claim_id, .. } => claim_id == ctx.claim_id,
        },
{
}

/// A run of which only its success counts is acknowledged as any other: as done, or as a
/// failure that may be retried.
pub proof fn law_plain_runs_are_acknowledged_alike(
    config: JobWorkerConfig,
    now: (i64, u32),
    retry_delay: Delay,
    ctx: JobContext,
    succeeded: bool,
    error: String,
    plain: JobCommand,
    full: JobCommand,
)
    requires
        call_ensures(ack_command, (&config, now, retry_delay, &ctx, succeeded, error), plain),
        call_ensures(
            outcome_command,
            (
                &config,
                now,
                retry_delay,
                &ctx,
                if succeeded {
                    Ok(JobOutcome::Done(()))
                } else {
                    Err(JobFailure::Transient(error))
                },
            ),
            full,
        ),
    ensures
        plain == full,
        succeeded <==> plain is Succeed,
{
}

/// A run whose lease was lost is not acknowledged, and every other run is, as its report
/// asks.
pub proof fn law_lost_runs_are_not_acknowledged(
    config: JobWorkerConfig,
    now: (i64, u32),
    retry_delay: Delay,
    ctx: JobContext,
    lost: bool,
    report: Result<JobOutcome<()>, JobFailure<String>>,
    sent: Option<JobCommand>,
    command: JobCommand,
)
    requires
        call_ensures(acknowledgement, (&config, now, retry_delay, &ctx, lost, report), sent),
        call_ensures(outcome_command, (&config, now, retry_delay, &ctx, report), command),
    ensures
        lost ==> sent is None,
        !lost ==> sent == Some(command),
{
}

/// A lease is renewed for its whole duration from now on, and never for less: a duration
/// that cannot be counted is taken for half a minute.
pub proof fn law_leases_last_as_long_as_configured(
    config: JobWorkerConfig,
    now: (i64, u32),
    until_ms: i64,
    lease_ms: i64,
)
    requires
        can_be_moved(now, config.lease_duration),
        call_ensures(renewed_lease, (&config, now), until_ms),
        call_ensures(lease_millis, (config.lease_duration,), lease_ms),
    ensures
        ({
            let asked = config.lease_duration.secs * 1_000_000_000 + config.lease_duration.nanos;
            let counted = asked <= i64::MAX * 1_000_000;
            let due = now.0 * 1_000_000_000 + now.1 + if counted {
                asked
            } else {
                30_000_000_000
            };
            &&& until_ms * 1_000_000 <= due < (until_ms + 1) * 1_000_000
            &&& counted ==> lease_ms * 1_000_000 <= asked < (lease_ms + 1) * 1_000_000
            &&& asked >= (i64::MAX + 1) * 1_000_000 ==> lease_ms == 30_000
        }),
{
}

/// The run of a job is told what its claim was won with, and tuned as its worker is.
pub proof fn law_runs_are_told_of_their_claim(
    config: JobWorkerConfig,
    job_id: JobId,
    won: WonClaim,
    ctx: JobContext,
)
    requires
        call_ensures(job_context, (&config, job_id, &won), ctx),
    ensures
        ctx.job_id == job_id,
        ctx.claim_seq == won.claim_seq,
        ctx.claim_id == won.claim_id,
        ctx.attempt == won.attempt,
        ctx.max_attempts == config.max_attempts,
        ctx.delivery.retry_delay == config.delivery.retry_delay,
        ctx.delivery.refused_backoff == config.delivery.refused_backoff,
{
}

/// A poll runs what it won, goes on to the next candidate where it won nothing, and stops
/// only at an error.
pub proof fn law_polls_go_on_until_an_error<Won, Error>(
    outcome: Result<ClaimOutcome<Won>, Error>,
    step: PollStep<Won>,
)
    requires
        call_ensures(after_claim::<Won, Error>, (outcome,), step),
    ensures
        match step {
            PollStep::Run(won) => outcome == Ok::<_, Error>(ClaimOutcome::Won(won)),
            PollStep::Next => outcome is Ok && !(outcome->Ok_0 is Won),
            PollStep::Idle => outcome is Err,
        },
{
}

/// A lease is renewed on and on until it is known to be lost; an error is no reason to
/// stop.
pub proof fn law_renewals_stop_once_the_lease_is_lost<Error>(
    renewal: Result<LeaseRenewal, Error>,
    goes_on: bool,
)
    requires
        call_ensures(after_renewal::<Error>, (&renewal,), goes_on),
    ensures
        renewal matches Ok(held) ==> (goes_on <==> held is Held),
        renewal is Err ==> goes_on,
{
}

/// An acknowledgement is sent again only where the database was out of reach, after a
/// moment; where another claim owns the outcome the worker steps back, and a run that
/// succeeded then counts as one that may happen twice.
pub proof fn law_acknowledgements_are_repeated_only_out_of_reach(
    reply: AckReply,
    succeeded: bool,
    step: AckStep,
)
    requires
        call_ensures(after_ack, (reply, succeeded), step),
    ensures
        step is Done <==> reply is Recorded,
        step is RetryAfter <==> reply is Connection,
        step matches AckStep::RetryAfter(delay) ==> delay.secs * 1_000_000_000 + delay.nanos
            == 50_000_000,
        step is Fenced <==> reply is Conflict || (reply matches AckReply::Refused(error)
            && error is Apply),
        step matches AckStep::Fenced { double_execution } ==> double_execution == succeeded,
{
}

/// A run that took too long counts as a failure that may be retried; any other run counts
/// as what it reported.
pub proof fn law_runs_that_take_too_long_may_be_retried(
    end: RunEnd,
    report: Result<JobOutcome<()>, JobFailure<String>>,
)
    requires
        call_ensures(run_report, (end,), report),
    ensures
        end matches RunEnd::Returned(own) ==> report == own,
        end matches RunEnd::TimedOut(limit) ==> (report matches Err(JobFailure::Transient(error))
            && error@ == "job execution exceeded "@ + limit@),
{
}

/// The line of an error names every message once, in order, with a colon between two of
/// them, however the causes are grouped.
pub proof fn law_error_lines_join_their_messages(outer: Seq<String>, inner: Seq<String>)
    requires
        outer.len() > 0,
        inner.len() > 0,
    ensures
        chained(outer + inner) == chained(outer) + ": "@ + chained(inner),
        inner.len() == 1 ==> chained(inner) == inner[0]@,
        chained(Seq::empty()) == Seq::<char>::empty(),
    decreases inner.len(),
{
    let all = outer + inner;
    assert(all.drop_last() =~= outer + inner.drop_last());
    assert(all.last() == inner.last());
    if inner.len() > 1 {
        law_error_lines_join_their_messages(outer, inner.drop_last());
        assert(chained(all) =~= chained(outer) + ": "@ + chained(inner));
    } else {
        assert(all.drop_last() =~= outer);
    }
}

/// The line of an error is made of all of its messages; one message is its own line.
pub proof fn law_error_lines_are_made_of_their_messages(messages: Vec<String>, line: String)
    requires
        call_ensures(error_chain, (&messages,), line),
    ensures
        line@ == chained(messages@),
        messages@.len() == 0 ==> line@.len() == 0,
        messages@.len() == 1 ==> line@ == messages@[0]@,
        messages@.len() == 2 ==> line@ == messages@[0]@ + ": "@ + messages@[1]@,
{
    reveal_with_fuel(chained, 3);
}

/// An instant is moved by the whole wait, and rounded down once, at the end.
pub proof fn law_instants_are_moved_by_the_whole_wait(now: (i64, u32), wait: Delay, millis: i64)
    requires
        can_be_moved(now, wait),
        call_ensures(later_millis, (now, wait), millis),
        wait.secs * 1_000_000_000 + wait.nanos <= i64::MAX * 1_000_000,
    ensures
        millis * 1_000_000 <= now.0 * 1_000_000_000 + now.1 + wait.secs * 1_000_000_000 + wait.nanos
            < (millis + 1) * 1_000_000,
{
}

} // verus!
