//! Durable, retryable jobs.
//!
//! A job is its own event stream: [`JobState`] is folded from [`JobEvent`]s. A
//! worker claims a job under a fresh [`ClaimId`]; the acknowledgement of the run
//! is a [`JobCommand`] that is fenced on that id. The live lease is a column of
//! the queue alone and is not folded.

use vstd::prelude::*;

use crate::dispatch::{DeliveryPolicy, Effect, Nil};
use crate::entity::EventSourced;
use crate::identity::{
    fresh_ulid, law_identities_are_read_back, parse_ulid, show_ulid, ulid_parsed, ulid_text,
    JobIdError, ULID_LEN,
};
use crate::job_store::{ClaimDecision, ClaimRead};
use crate::lifecycle::Lifecycle;
use crate::time::{
    from_timestamp_millis, representable, utc_now, Delay, MAX_UTC_MILLIS, MIN_UTC_MILLIS,
    NANOS_PER_MILLI, NANOS_PER_SEC,
};

verus! {

/// The identity of a durable job, the same across every retry and claim of it.
#[derive(Clone, Copy, Debug, Eq, Hash, PartialEq, Structural)]
pub struct JobId(pub u128);

impl JobId {
    /// A fresh identity.
    #[must_use]
    pub fn new() -> Self {
        Self(fresh_ulid())
    }

    /// The identity as a text, which is read back as the same identity.
    pub fn to_string(&self) -> (text: String)
        ensures
            text@ == ulid_text(self.0),
            text@.len() == ULID_LEN,
            ulid_parsed(text@) == Ok::<_, JobIdError>(self.0),
    {
        proof {
            law_identities_are_read_back(self.0);
        }
        show_ulid(self.0)
    }

    /// The identity that a text stands for.
    pub fn parse(text: &str) -> (result: Result<Self, JobIdError>)
        ensures
            match ulid_parsed(text@) {
                Ok(value) => result == Ok::<_, JobIdError>(JobId(value)),
                Err(error) => result == Err::<JobId, _>(error),
            },
    {
        match parse_ulid(text) {
            Ok(value) => Ok(Self(value)),
            Err(error) => Err(error),
        }
    }
}

impl Default for JobId {
    fn default() -> (id: Self)
        ensures
            id == JobId(0),
    {
        Self(0)
    }
}

/// A durable job that nothing waits for: reactors, pollers and other jobs enqueue it by
/// itself. Nothing is assumed of what an implementation returns.
pub trait StandaloneJob: Sized {
    /// What a run of the job is given.
    type Input;

    /// What a run produces.
    type Output;

    /// Why a run failed.
    type Error;

    const WORKER_NAME: &'static str;

    /// The kind by which the job finds its worker.
    const KIND: &'static str;

    /// What is logged once the retries of the job are used up.
    const TERMINAL_FAILURE_MSG: &'static str = "Job failed after retries";

    /// What the job is called in logs.
    fn label(&self) -> Label;

    /// What the job carries, in JSON form, or why it has none.
    fn encode(&self) -> Result<serde_json::Value, String>;
}

/// What a worker hands to a run of a job, as it was when the job was claimed.
#[derive(Debug)]
pub struct JobContext {
    pub job_id: JobId,
    /// The sequence of the `Claimed` event of this run.
    pub claim_seq: i64,
    /// The claim that this run belongs to.
    pub claim_id: ClaimId,
    /// Recorded failures before this run.
    pub attempt: u32,
    /// The worker's retry budget; 0 where it is unknown.
    pub max_attempts: u32,
    /// How long the worker waits after a failed delivery.
    pub delivery: DeliveryPolicy,
}

impl Clone for JobContext {
    fn clone(&self) -> (copy: Self)
        ensures
            copy == *self,
    {
        Self {
            job_id: self.job_id,
            claim_seq: self.claim_seq,
            claim_id: self.claim_id.clone(),
            attempt: self.attempt,
            max_attempts: self.max_attempts,
            delivery: self.delivery,
        }
    }
}

impl Default for JobContext {
    fn default() -> (ctx: Self)
        ensures
            ctx.job_id == JobId(0),
            ctx.claim_seq == 0,
            ctx.claim_id.0@ == Seq::<char>::empty(),
            ctx.attempt == 0,
            ctx.max_attempts == 0,
            ctx.delivery.retry_delay == (Delay { secs: 5, nanos: 0 }),
            ctx.delivery.refused_backoff == (Delay { secs: 300, nanos: 0 }),
    {
        Self {
            job_id: JobId(0),
            claim_seq: 0,
            claim_id: ClaimId(String::new()),
            attempt: 0,
            max_attempts: 0,
            delivery: DeliveryPolicy::default(),
        }
    }
}

/// The sequence of a job's first claim: it follows on the `Enqueued` event.
pub const FIRST_CLAIM_SEQ: i64 = 2;

impl JobContext {
    /// Whether no earlier run of the job was claimed.
    pub open spec fn first(self) -> bool {
        self.claim_seq == FIRST_CLAIM_SEQ
    }

    /// Whether one more failure exhausts the retry budget.
    pub open spec fn last(self) -> bool {
        self.max_attempts > 0 && self.attempt + 1 >= self.max_attempts
    }

    pub fn job_id(&self) -> (id: JobId)
        ensures
            id == self.job_id,
    {
        self.job_id
    }

    pub fn attempt(&self) -> (attempt: u32)
        ensures
            attempt == self.attempt,
    {
        self.attempt
    }

    /// Whether this is the job's first run ever, so that nothing outside can have
    /// been reached before.
    pub fn is_first_execution(&self) -> (first: bool)
        ensures
            first == self.first(),
    {
        self.claim_seq == FIRST_CLAIM_SEQ
    }

    /// Whether a failure of this run exhausts the retry budget.
    pub fn is_final_attempt(&self) -> (last: bool)
        ensures
            last == self.last(),
    {
        self.max_attempts > 0 && self.attempt as u64 + 1 >= self.max_attempts as u64
    }
}

/// What a run of a job reports.
#[derive(Debug)]
pub enum JobOutcome<Output> {
    /// The job is finished.
    Done(Output),
    /// The job did not fail; it runs again after the delay, and no attempt is counted.
    Defer(Delay),
}

/// How a failed run is to be treated.
#[derive(Debug)]
pub enum JobFailure<PerformError> {
    /// Worth another try: an attempt is counted.
    Transient(PerformError),
    /// No retry can mend it: the job is given up at once.
    Terminal(PerformError),
}

/// What a job is called in logs.
#[derive(Clone, Debug)]
pub struct Label(pub String);

impl Label {
    pub fn new<Text: Into<String>>(label: Text) -> (result: Self)
        ensures
            call_ensures(Text::into, (label,), result.0),
    {
        Self(label.into())
    }

    /// The label's text.
    pub fn to_string(&self) -> (text: String)
        ensures
            text == self.0,
    {
        self.0.clone()
    }
}

/// The kind of a job, by which it finds its worker.
#[derive(Debug, Eq, PartialEq)]
pub struct JobKind(pub String);

impl JobKind {
    pub fn new<Text: Into<String>>(kind: Text) -> (result: Self)
        ensures
            call_ensures(Text::into, (kind,), result.0),
    {
        Self(kind.into())
    }
}

impl Clone for JobKind {
    fn clone(&self) -> (copy: Self)
        ensures
            copy == *self,
    {
        Self(self.0.clone())
    }
}

/// Who holds a claim.
#[derive(Debug, Eq, PartialEq)]
pub struct WorkerId(pub String);

impl WorkerId {
    /// A fresh worker of the given name: the name, a colon and a fresh identity.
    pub fn new(name: &str) -> (worker: Self)
        ensures
            exists|value: u128|
                #![trigger ulid_text(value)]
                worker.0@ == name@ + seq![':'] + ulid_text(value),
    {
        let value: u128 = fresh_ulid();
        let suffix = show_ulid(value);
        let mut text = name.to_owned();
        text.append(":");
        text.append(suffix.as_str());
        proof {
            reveal_strlit(":");
            assert(":"@ =~= seq![':']);
            assert(text@ == name@ + seq![':'] + ulid_text(value));
        }
        Self(text)
    }
}

impl Clone for WorkerId {
    fn clone(&self) -> (copy: Self)
        ensures
            copy == *self,
    {
        Self(self.0.clone())
    }
}

/// The identity of one claim of a job; every claim has its own.
#[derive(Debug, Eq, PartialEq)]
pub struct ClaimId(pub String);

/// Whether the claim is the text of an identity.
pub open spec fn minted(claim: ClaimId) -> bool {
    exists|value: u128| claim.0@ == #[trigger] ulid_text(value)
}

impl ClaimId {
    /// A fresh claim.
    pub fn new() -> (claim: Self)
        ensures
            minted(claim),
    {
        let value: u128 = fresh_ulid();
        Self(show_ulid(value))
    }
}

impl Clone for ClaimId {
    fn clone(&self) -> (copy: Self)
        ensures
            copy == *self,
    {
        Self(self.0.clone())
    }
}

/// Why a job was given up.
#[derive(Clone, Copy, Debug, Eq, PartialEq, Structural)]
pub enum DeadReason {
    /// Every attempt failed.
    RetriesExhausted,
    /// A run failed in a way that no retry can mend.
    Rejected,
    /// The stored payload is no job of its kind any more.
    Undecodable,
    /// The job was claimed too often without an outcome.
    Abandoned,
}

/// A step in a job's life. Instants are milliseconds since the Unix epoch.
#[derive(Debug, PartialEq)]
pub enum JobEvent {
    /// The job is there, to run at `run_at`.
    Enqueued { kind: JobKind, payload: serde_json::Value, run_at: i64 },
    /// A worker took the job. The lease is kept here for the record alone.
    Claimed { worker: WorkerId, claim_id: ClaimId, lease_until: i64 },
    /// The job ran to success.
    Succeeded,
    /// A run failed; the job runs again as `attempt`.
    RetryScheduled { run_at: i64, attempt: u32, error: String },
    /// The job runs again without a failure being counted.
    Rescheduled { run_at: i64 },
    /// The job was given up.
    Dead { reason: DeadReason, error: String },
}

impl Clone for JobEvent {
    fn clone(&self) -> (copy: Self)
        ensures
            copy == *self,
    {
        match self {
            JobEvent::Enqueued { kind, payload, run_at } => JobEvent::Enqueued {
                kind: kind.clone(),
                payload: payload.clone(),
                run_at: *run_at,
            },
            JobEvent::Claimed { worker, claim_id, lease_until } => JobEvent::Claimed {
                worker: worker.clone(),
                claim_id: claim_id.clone(),
                lease_until: *lease_until,
            },
            JobEvent::Succeeded => JobEvent::Succeeded,
            JobEvent::RetryScheduled { run_at, attempt, error } => JobEvent::RetryScheduled {
                run_at: *run_at,
                attempt: *attempt,
                error: error.clone(),
            },
            JobEvent::Rescheduled { run_at } => JobEvent::Rescheduled { run_at: *run_at },
            JobEvent::Dead { reason, error } => JobEvent::Dead {
                reason: *reason,
                error: error.clone(),
            },
        }
    }
}

/// The type of the streams of jobs.
pub const JOB_AGGREGATE_TYPE: &'static str = "job";

/// The version under which job events are stored.
pub const JOB_EVENT_VERSION: &'static str = "1.0";

impl JobEvent {
    /// The name under which the event is stored.
    pub open spec fn name(self) -> Seq<char> {
        match self {
            JobEvent::Enqueued { .. } => "JobEnqueued"@,
            JobEvent::Claimed { .. } => "JobClaimed"@,
            JobEvent::Succeeded => "JobSucceeded"@,
            JobEvent::RetryScheduled { .. } => "JobRetryScheduled"@,
            JobEvent::Rescheduled { .. } => "JobRescheduled"@,
            JobEvent::Dead { .. } => "JobDead"@,
        }
    }

    pub fn stored_name(&self) -> (name: &'static str)
        ensures
            name@ == self.name(),
    {
        match self {
            JobEvent::Enqueued { .. } => "JobEnqueued",
            JobEvent::Claimed { .. } => "JobClaimed",
            JobEvent::Succeeded => "JobSucceeded",
            JobEvent::RetryScheduled { .. } => "JobRetryScheduled",
            JobEvent::Rescheduled { .. } => "JobRescheduled",
            JobEvent::Dead { .. } => "JobDead",
        }
    }

    pub fn event_type(&self) -> (name: String)
        ensures
            name@ == self.name(),
    {
        self.stored_name().to_owned()
    }

    pub fn event_version(&self) -> (version: String)
        ensures
            version@ == JOB_EVENT_VERSION@,
    {
        JOB_EVENT_VERSION.to_owned()
    }
}

/// The folded state of a job.
#[derive(Debug, PartialEq)]
pub enum JobState {
    /// To run at `run_at`; `attempt` failures are counted.
    Pending {
        kind: JobKind,
        payload: serde_json::Value,
        run_at: i64,
        attempt: u32,
        claims: u32,
    },
    /// Held under `claim_id`.
    Claimed {
        kind: JobKind,
        payload: serde_json::Value,
        worker: WorkerId,
        claim_id: ClaimId,
        run_at: i64,
        attempt: u32,
        claims: u32,
    },
    /// Finished.
    Done,
    /// Given up.
    Dead { reason: DeadReason },
}

impl Clone for JobState {
    fn clone(&self) -> (copy: Self)
        ensures
            copy == *self,
    {
        match self {
            JobState::Pending { kind, payload, run_at, attempt, claims } => JobState::Pending {
                kind: kind.clone(),
                payload: payload.clone(),
                run_at: *run_at,
                attempt: *attempt,
                claims: *claims,
            },
            JobState::Claimed { kind, payload, worker, claim_id, run_at, attempt, claims } => {
                JobState::Claimed {
                    kind: kind.clone(),
                    payload: payload.clone(),
                    worker: worker.clone(),
                    claim_id: claim_id.clone(),
                    run_at: *run_at,
                    attempt: *attempt,
                    claims: *claims,
                }
            },
            JobState::Done => JobState::Done,
            JobState::Dead { reason } => JobState::Dead { reason: *reason },
        }
    }
}

/// The acknowledgement of a run, by the claim that it belongs to.
#[derive(Debug)]
pub enum JobCommand {
    Succeed { claim_id: ClaimId },
    RetrySchedule { claim_id: ClaimId, run_at: i64, attempt: u32, error: String },
    Reschedule { claim_id: ClaimId, run_at: i64 },
    Kill { claim_id: ClaimId, reason: DeadReason, error: String },
}

impl Clone for JobCommand {
    fn clone(&self) -> (copy: Self)
        ensures
            copy == *self,
    {
        match self {
            JobCommand::Succeed { claim_id } => JobCommand::Succeed { claim_id: claim_id.clone() },
            JobCommand::RetrySchedule { claim_id, run_at, attempt, error } =>
                JobCommand::RetrySchedule {
                claim_id: claim_id.clone(),
                run_at: *run_at,
                attempt: *attempt,
                error: error.clone(),
            },
            JobCommand::Reschedule { claim_id, run_at } => JobCommand::Reschedule {
                claim_id: claim_id.clone(),
                run_at: *run_at,
            },
            JobCommand::Kill { claim_id, reason, error } => JobCommand::Kill {
                claim_id: claim_id.clone(),
                reason: *reason,
                error: error.clone(),
            },
        }
    }
}

impl JobCommand {
    /// The claim that the command comes from.
    pub open spec fn claim(self) -> ClaimId {
        match self {
            JobCommand::Succeed { claim_id } => claim_id,
            JobCommand::RetrySchedule { claim_id, .. } => claim_id,
            JobCommand::Reschedule { claim_id, .. } => claim_id,
            JobCommand::Kill { claim_id, .. } => claim_id,
        }
    }

    /// The event that the command records.
    pub open spec fn event(self) -> JobEvent {
        match self {
            JobCommand::Succeed { .. } => JobEvent::Succeeded,
            JobCommand::RetrySchedule { run_at, attempt, error, .. } => JobEvent::RetryScheduled {
                run_at,
                attempt,
                error,
            },
            JobCommand::Reschedule { run_at, .. } => JobEvent::Rescheduled { run_at },
            JobCommand::Kill { reason, error, .. } => JobEvent::Dead { reason, error },
        }
    }

    pub fn claim_id(&self) -> (claim_id: &ClaimId)
        ensures
            *claim_id == self.claim(),
    {
        match self {
            JobCommand::Succeed { claim_id } => claim_id,
            JobCommand::RetrySchedule { claim_id, .. } => claim_id,
            JobCommand::Reschedule { claim_id, .. } => claim_id,
            JobCommand::Kill { claim_id, .. } => claim_id,
        }
    }
}

/// Why a command on a job is refused.
#[derive(Clone, Copy, Debug, Eq, PartialEq, Structural)]
pub enum JobError {
    /// The claim does not hold the job any more.
    Fenced,
}

/// The state that a first event makes.
pub open spec fn state_originated(event: JobEvent) -> Option<JobState> {
    match event {
        JobEvent::Enqueued { kind, payload, run_at } => Some(
            JobState::Pending { kind, payload, run_at, attempt: 0, claims: 0 },
        ),
        _ => None,
    }
}

/// A job under one more claim, where the count can hold it.
pub open spec fn state_claimed(
    state: JobState,
    worker: WorkerId,
    claim_id: ClaimId,
) -> Option<JobState> {
    match state {
        JobState::Pending { kind, payload, run_at, attempt, claims } if claims < u32::MAX => Some(
            JobState::Claimed {
                kind,
                payload,
                worker,
                claim_id,
                run_at,
                attempt,
                claims: (claims + 1) as u32,
            },
        ),
        JobState::Claimed { kind, payload, run_at, attempt, claims, .. } if claims < u32::MAX
        => Some(
            JobState::Claimed {
                kind,
                payload,
                worker,
                claim_id,
                run_at,
                attempt,
                claims: (claims + 1) as u32,
            },
        ),
        _ => None,
    }
}

/// The state after one more event, if the event can follow.
pub open spec fn state_evolved(state: JobState, event: JobEvent) -> Option<JobState> {
    match event {
        JobEvent::Enqueued { .. } => None,
        JobEvent::Claimed { worker, claim_id, .. } => state_claimed(state, worker, claim_id),
        JobEvent::Succeeded => if state is Claimed {
            Some(JobState::Done)
        } else {
            None
        },
        JobEvent::RetryScheduled { run_at, attempt, .. } => match state {
            JobState::Claimed { kind, payload, claims, .. } => Some(
                JobState::Pending { kind, payload, run_at, attempt, claims },
            ),
            _ => None,
        },
        JobEvent::Rescheduled { run_at } => match state {
            JobState::Claimed { kind, payload, attempt, .. } => Some(
                JobState::Pending { kind, payload, run_at, attempt, claims: 0 },
            ),
            _ => None,
        },
        JobEvent::Dead { reason, .. } => if state is Pending || state is Claimed {
            Some(JobState::Dead { reason })
        } else {
            None
        },
    }
}

/// Whether the claim holds the job.
pub open spec fn holds(state: JobState, claim: ClaimId) -> bool {
    state matches JobState::Claimed { claim_id, .. } && claim_id.0@ == claim.0@
}

impl EventSourced for JobState {
    type Id = JobId;

    type Event = JobEvent;

    type Command = JobCommand;

    type Error = JobError;

    type Jobs = Nil;

    const AGGREGATE_TYPE: &'static str = JOB_AGGREGATE_TYPE;

    const SCHEMA_VERSION: u64 = 1;

    fn originate(event: &JobEvent) -> (origin: Option<Self>)
        ensures
            origin == state_originated(*event),
    {
        match event {
            JobEvent::Enqueued { kind, payload, run_at } => Some(
                JobState::Pending {
                    kind: kind.clone(),
                    payload: payload.clone(),
                    run_at: *run_at,
                    attempt: 0,
                    claims: 0,
                },
            ),
            _ => None,
        }
    }

    /// A claim keeps the attempts, for a crash is no failed attempt; a claim count
    /// that cannot grow is taken for a corrupt stream.
    fn evolve(entity: &Self, event: &JobEvent) -> (step: Result<Option<Self>, JobError>)
        ensures
            step == Ok::<_, JobError>(state_evolved(*entity, *event)),
    {
        let next = match (entity, event) {
            (
                JobState::Pending { kind, payload, run_at, attempt, claims },
                JobEvent::Claimed { worker, claim_id, .. },
            ) => {
                if *claims == u32::MAX {
                    return Ok(None);
                }
                JobState::Claimed {
                    kind: kind.clone(),
                    payload: payload.clone(),
                    worker: worker.clone(),
                    claim_id: claim_id.clone(),
                    run_at: *run_at,
                    attempt: *attempt,
                    claims: *claims + 1,
                }
            },
            (
                JobState::Claimed { kind, payload, run_at, attempt, claims, .. },
                JobEvent::Claimed { worker, claim_id, .. },
            ) => {
                if *claims == u32::MAX {
                    return Ok(None);
                }
                JobState::Claimed {
                    kind: kind.clone(),
                    payload: payload.clone(),
                    worker: worker.clone(),
                    claim_id: claim_id.clone(),
                    run_at: *run_at,
                    attempt: *attempt,
                    claims: *claims + 1,
                }
            },
            (JobState::Claimed { .. }, JobEvent::Succeeded) => JobState::Done,
            (
                JobState::Claimed { kind, payload, claims, .. },
                JobEvent::RetryScheduled { run_at, attempt, .. },
            ) => JobState::Pending {
                kind: kind.clone(),
                payload: payload.clone(),
                run_at: *run_at,
                attempt: *attempt,
                claims: *claims,
            },
            (
                JobState::Claimed { kind, payload, attempt, .. },
                JobEvent::Rescheduled { run_at },
            ) => JobState::Pending {
                kind: kind.clone(),
                payload: payload.clone(),
                run_at: *run_at,
                attempt: *attempt,
                claims: 0,
            },
            (JobState::Pending { .. }, JobEvent::Dead { reason, .. }) => JobState::Dead {
                reason: *reason,
            },
            (JobState::Claimed { .. }, JobEvent::Dead { reason, .. }) => JobState::Dead {
                reason: *reason,
            },
            _ => return Ok(None),
        };
        Ok(Some(next))
    }

    /// Jobs are created by an enqueue, never by a command; the acknowledgement of a
    /// job that is gone does nothing.
    fn initialize(command: JobCommand) -> (effect: Result<Effect<Self>, JobError>)
        ensures
            effect matches Ok(Effect::Events(events)) && events@ == Seq::<JobEvent>::empty(),
    {
        Ok(Effect::Events(vec![]))
    }

    fn transition(&self, command: JobCommand) -> (effect: Result<Effect<Self>, JobError>)
        ensures
            holds(*self, command.claim()) ==> (effect matches Ok(Effect::Events(events)) && events@
                == seq![command.event()]),
            !holds(*self, command.claim()) ==> effect == Err::<Effect<Self>, _>(JobError::Fenced),
    {
        let JobState::Claimed { claim_id: held, .. } = self else {
            return Err(JobError::Fenced);
        };
        if held.0 != command.claim_id().0 {
            return Err(JobError::Fenced);
        }
        let event = match command {
            JobCommand::Succeed { .. } => JobEvent::Succeeded,
            JobCommand::RetrySchedule { run_at, attempt, error, .. } => JobEvent::RetryScheduled {
                run_at,
                attempt,
                error,
            },
            JobCommand::Reschedule { run_at, .. } => JobEvent::Rescheduled { run_at },
            JobCommand::Kill { reason, error, .. } => JobEvent::Dead { reason, error },
        };
        let events = vec![event];
        Ok(Effect::Events(events))
    }
}

/// A claim that was won: what the worker needs to run the job.
#[derive(Debug)]
pub struct WonClaim {
    /// The sequence of the `Claimed` event.
    pub claim_seq: i64,
    /// The claim, by which the run is acknowledged.
    pub claim_id: ClaimId,
    /// Recorded failures so far.
    pub attempt: u32,
    /// What the job carries.
    pub args: serde_json::Value,
}

/// A job to enqueue, with its identity and its first run resolved.
#[derive(Debug)]
pub struct EnqueueRequest {
    pub job_id: JobId,
    pub kind: JobKind,
    pub payload: serde_json::Value,
    pub run_at_ms: i64,
}

/// Why a job cannot be enqueued.
#[derive(Debug)]
pub enum JobStoreError {
    /// The job has no JSON form.
    Encode(String),
    /// The delay leads beyond what can be represented.
    DelayOverflow,
    /// The first run is no representable instant.
    InvalidInstant(i64),
}

/// Whether a job may be claimed at `now`. A pending job asks for its own instant,
/// a claimed one for the lease column; a row without a lease may be claimed.
pub open spec fn runnable(state: JobState, lease_until_ms: Option<i64>, now_ms: i64) -> bool {
    match state {
        JobState::Pending { run_at, .. } => run_at <= now_ms,
        JobState::Claimed { .. } => match lease_until_ms {
            Some(lease) => lease < now_ms,
            None => true,
        },
        _ => false,
    }
}

/// How often an open job was claimed.
pub open spec fn claims_of(state: JobState) -> u32 {
    match state {
        JobState::Pending { claims, .. } => claims,
        JobState::Claimed { claims, .. } => claims,
        _ => 0,
    }
}

/// How many failures of an open job are counted.
pub open spec fn attempt_of(state: JobState) -> u32 {
    match state {
        JobState::Pending { attempt, .. } => attempt,
        JobState::Claimed { attempt, .. } => attempt,
        _ => 0,
    }
}

/// What an open job carries.
pub open spec fn payload_of(state: JobState) -> Option<serde_json::Value> {
    match state {
        JobState::Pending { payload, .. } => Some(payload),
        JobState::Claimed { payload, .. } => Some(payload),
        _ => None,
    }
}

/// The kind of an open job.
pub open spec fn kind_of(state: JobState) -> Option<JobKind> {
    match state {
        JobState::Pending { kind, .. } => Some(kind),
        JobState::Claimed { kind, .. } => Some(kind),
        _ => None,
    }
}

/// The state of a job that may be claimed at `now`: there is a row, its payload is a
/// live job, and the job is runnable.
pub open spec fn claimable(
    read: Option<ClaimRead>,
    decoded: Option<Lifecycle<JobState>>,
    now_ms: i64,
) -> Option<JobState> {
    match (read, decoded) {
        (Some(row), Some(Lifecycle::Live(state))) => if runnable(
            state,
            row.lease_until_ms,
            now_ms,
        ) {
            Some(state)
        } else {
            None
        },
        _ => None,
    }
}

/// The instant that is recorded for a lease: the lease itself where it can be
/// represented, else `fallback`.
pub open spec fn recorded_lease(lease_until_ms: int, fallback: i64) -> i64 {
    if representable(lease_until_ms) {
        lease_until_ms as i64
    } else {
        fallback
    }
}

/// Whether `decision` is what to do with the row: nothing unless the job may be
/// claimed; give it up when its claims reached the limit; else claim it.
pub open spec fn planned(
    read: Option<ClaimRead>,
    decoded: Option<Lifecycle<JobState>>,
    worker: WorkerId,
    now_ms: i64,
    lease_ms: i64,
    max_claims: u32,
    claim_id: ClaimId,
    fallback: i64,
    decision: ClaimDecision<WonClaim>,
) -> bool {
    match claimable(read, decoded, now_ms) {
        None => decision is Skip,
        Some(state) => {
            let claim_seq = read->0.version + 1;
            if !(0 <= claim_seq <= usize::MAX) {
                decision is Skip
            } else if claims_of(state) >= max_claims {
                &&& decision matches ClaimDecision::Abandon { event, sequence, state: dead }
                &&& sequence == claim_seq
                &&& event matches JobEvent::Dead { reason, error }
                &&& reason is Abandoned
                &&& error@ == "claim budget exhausted"@
                &&& dead == JobState::Dead { reason: DeadReason::Abandoned }
            } else {
                decision == ClaimDecision::Claim {
                    event: JobEvent::Claimed {
                        worker,
                        claim_id,
                        lease_until: recorded_lease(now_ms + lease_ms, fallback),
                    },
                    sequence: claim_seq as usize,
                    state: state_claimed(state, worker, claim_id)->0,
                    lease_until_ms: (now_ms + lease_ms) as i64,
                    won: WonClaim {
                        claim_seq: claim_seq as i64,
                        claim_id,
                        attempt: attempt_of(state),
                        args: payload_of(state)->0,
                    },
                }
            }
        },
    }
}

/// Whether the sums that a claim makes stay within their type.
pub open spec fn claim_fits(
    read: Option<ClaimRead>,
    decoded: Option<Lifecycle<JobState>>,
    now_ms: i64,
    lease_ms: i64,
) -> bool {
    claimable(read, decoded, now_ms) is Some ==> read->0.version < i64::MAX && i64::MIN <= now_ms
        + lease_ms <= i64::MAX
}

/// Decides a claim under a fresh claim identity. `decoded` is what the row's payload
/// holds, if it holds anything.
pub fn plan_claim(
    read: Option<ClaimRead>,
    decoded: Option<Lifecycle<JobState>>,
    worker: &WorkerId,
    now_ms: i64,
    lease_ms: i64,
    max_claims: u32,
) -> (decision: ClaimDecision<WonClaim>)
    requires
        claim_fits(read, decoded, now_ms, lease_ms),
    ensures
        exists|claim_id: ClaimId, fallback: i64| #[trigger]
            planned(
                read,
                decoded,
                *worker,
                now_ms,
                lease_ms,
                max_claims,
                claim_id,
                fallback,
                decision,
            ) && minted(claim_id) && 0 <= fallback && representable(fallback as int),
{
    let (secs, nanos) = utc_now();
    let fallback: i64 = secs * 1000 + (nanos / 1_000_000) as i64;
    plan_claim_as(
        read,
        decoded,
        worker,
        now_ms,
        lease_ms,
        max_claims,
        ClaimId::new(),
        fallback,
    )
}

/// Decides a claim under the given claim identity; `fallback` is recorded for a lease
/// that cannot be represented.
pub fn plan_claim_as(
    read: Option<ClaimRead>,
    decoded: Option<Lifecycle<JobState>>,
    worker: &WorkerId,
    now_ms: i64,
    lease_ms: i64,
    max_claims: u32,
    claim_id: ClaimId,
    fallback: i64,
) -> (decision: ClaimDecision<WonClaim>)
    requires
        claim_fits(read, decoded, now_ms, lease_ms),
    ensures
        planned(
            read,
            decoded,
            *worker,
            now_ms,
            lease_ms,
            max_claims,
            claim_id,
            fallback,
            decision,
        ),
{
    let Some(row) = read else {
        return ClaimDecision::Skip;
    };
    let Some(lifecycle) = decoded else {
        return ClaimDecision::Skip;
    };
    let Lifecycle::Live(state) = lifecycle else {
        return ClaimDecision::Skip;
    };
    if !is_runnable(&state, row.lease_until_ms, now_ms) {
        return ClaimDecision::Skip;
    }
    let (kind, payload, run_at, attempt, claims) = match state {
        JobState::Pending { kind, payload, run_at, attempt, claims } => (
            kind,
            payload,
            run_at,
            attempt,
            claims,
        ),
        JobState::Claimed { kind, payload, run_at, attempt, claims, .. } => (
            kind,
            payload,
            run_at,
            attempt,
            claims,
        ),
        _ => return ClaimDecision::Skip,
    };

    let claim_seq: i64 = row.version + 1;
    if claim_seq < 0 || claim_seq as u64 > usize::MAX as u64 {
        return ClaimDecision::Skip;
    }
    let sequence: usize = claim_seq as usize;
    if claims >= max_claims {
        return plan_abandon(sequence);
    }

    let lease_until_ms: i64 = now_ms + lease_ms;
    let event = JobEvent::Claimed {
        worker: worker.clone(),
        claim_id: claim_id.clone(),
        lease_until: from_millis(lease_until_ms, fallback),
    };
    let args = payload.clone();
    let claimed = JobState::Claimed {
        kind,
        payload,
        worker: worker.clone(),
        claim_id: claim_id.clone(),
        run_at,
        attempt,
        claims: claims + 1,
    };
    ClaimDecision::Claim {
        event,
        sequence,
        state: claimed,
        lease_until_ms,
        won: WonClaim { claim_seq, claim_id, attempt, args },
    }
}

/// Whether a job may be claimed at `now`.
pub fn is_runnable(state: &JobState, lease_until_ms: Option<i64>, now_ms: i64) -> (may: bool)
    ensures
        may == runnable(*state, lease_until_ms, now_ms),
{
    match state {
        JobState::Pending { run_at, .. } => *run_at <= now_ms,
        JobState::Claimed { .. } => match lease_until_ms {
            Some(lease) => lease < now_ms,
            None => true,
        },
        JobState::Done => false,
        JobState::Dead { .. } => false,
    }
}

/// Gives up a job whose claims reached the limit.
pub fn plan_abandon(sequence: usize) -> (decision: ClaimDecision<WonClaim>)
    ensures
        ({
            &&& decision matches ClaimDecision::Abandon { event, sequence: at, state }
            &&& at == sequence
            &&& event matches JobEvent::Dead { reason, error }
            &&& reason is Abandoned
            &&& error@ == "claim budget exhausted"@
            &&& state == JobState::Dead { reason: DeadReason::Abandoned }
        }),
{
    ClaimDecision::Abandon {
        event: JobEvent::Dead {
            reason: DeadReason::Abandoned,
            error: "claim budget exhausted".to_owned(),
        },
        sequence,
        state: JobState::Dead { reason: DeadReason::Abandoned },
    }
}

/// The instant, where it can be represented, else `fallback`.
pub fn from_millis(millis: i64, fallback: i64) -> (instant: i64)
    ensures
        instant == recorded_lease(millis as int, fallback),
{
    match from_timestamp_millis(millis) {
        Some(instant) => instant,
        None => fallback,
    }
}

/// The event that a request records, at the start of the job's stream.
pub open spec fn enqueued(request: EnqueueRequest) -> JobEvent {
    JobEvent::Enqueued {
        kind: request.kind,
        payload: request.payload,
        run_at: request.run_at_ms,
    }
}

/// The `Enqueued` event of a request.
pub fn enqueued_event(request: &EnqueueRequest) -> (result: Result<JobEvent, JobStoreError>)
    ensures
        representable(request.run_at_ms as int) ==> result == Ok::<_, JobStoreError>(
            enqueued(*request),
        ),
        !representable(request.run_at_ms as int) ==> result == Err::<JobEvent, _>(
            JobStoreError::InvalidInstant(request.run_at_ms),
        ),
{
    match from_timestamp_millis(request.run_at_ms) {
        Some(run_at) => Ok(
            JobEvent::Enqueued {
                kind: request.kind.clone(),
                payload: request.payload.clone(),
                run_at,
            },
        ),
        None => Err(JobStoreError::InvalidInstant(request.run_at_ms)),
    }
}

/// The state with which the queue row of a request starts: what its `Enqueued` event
/// makes.
pub fn pending_seed(request: &EnqueueRequest) -> (result: Result<JobState, JobStoreError>)
    ensures
        representable(request.run_at_ms as int) ==> (result matches Ok(state) && Some(state)
            == state_originated(enqueued(*request))),
        !representable(request.run_at_ms as int) ==> result == Err::<JobState, _>(
            JobStoreError::InvalidInstant(request.run_at_ms),
        ),
{
    match from_timestamp_millis(request.run_at_ms) {
        Some(run_at) => Ok(
            JobState::Pending {
                kind: request.kind.clone(),
                payload: request.payload.clone(),
                run_at,
                attempt: 0,
                claims: 0,
            },
        ),
        None => Err(JobStoreError::InvalidInstant(request.run_at_ms)),
    }
}

/// The first run of a job, `delay` after `now`, in milliseconds rounded down; none
/// where the delay or the sum cannot be represented.
pub open spec fn resolved_run_at(now_nanos: int, delay: Option<Delay>) -> Option<int> {
    let wait = match delay {
        Some(delay) => delay.total_nanos(),
        None => 0,
    };
    let run_at = (now_nanos + wait) / (NANOS_PER_MILLI as int);
    if wait <= i64::MAX * NANOS_PER_MILLI && run_at <= MAX_UTC_MILLIS {
        Some(run_at)
    } else {
        None
    }
}

/// Resolves the first run of a job from the seconds and nanoseconds of `now`.
pub fn resolve_run_at_ms(now: (i64, u32), delay: Option<Delay>) -> (result: Result<
    i64,
    JobStoreError,
>)
    requires
        0 <= now.0 && representable(now.0 * 1000),
        now.1 < 1_000_000_000,
    ensures
        match resolved_run_at(now.0 * NANOS_PER_SEC + now.1, delay) {
            Some(run_at) => result matches Ok(millis) && millis == run_at,
            None => result == Err::<i64, _>(JobStoreError::DelayOverflow),
        },
{
    let now_nanos: i128 = now.0 as i128 * NANOS_PER_SEC + now.1 as i128;
    let wait: i128 = match delay {
        Some(delay) => delay.as_nanos(),
        None => 0,
    };
    if wait > i64::MAX as i128 * NANOS_PER_MILLI {
        return Err(JobStoreError::DelayOverflow);
    }
    let run_at: i128 = (now_nanos + wait) / NANOS_PER_MILLI;
    if run_at > MAX_UTC_MILLIS as i128 {
        return Err(JobStoreError::DelayOverflow);
    }
    Ok(run_at as i64)
}

/// A dispatched job that waits for the next commit.
#[derive(Debug)]
pub struct PendingPush {
    pub job_id: JobId,
    pub kind: JobKind,
    /// What the job carries, or why it has no JSON form.
    pub payload: Result<serde_json::Value, String>,
    pub delay: Option<Delay>,
}

/// The jobs that one command dispatched, until their commit succeeded.
#[derive(Debug)]
pub struct PendingJobs {
    pub pushes: Vec<PendingPush>,
}

/// Jobs made ready for a commit; the buffer keeps them until it succeeded.
#[derive(Debug)]
pub struct PreparedPendingJobs {
    pub requests: Vec<EnqueueRequest>,
    /// How many jobs of the buffer are in the requests; none where no command runs.
    pub prepared_count: Option<usize>,
}

/// A job was dispatched where no command runs.
#[derive(Clone, Copy, Debug, Eq, PartialEq, Structural)]
pub struct DispatchNotBuffered;

impl PendingJobs {
    /// The buffer of a command that dispatched nothing yet.
    pub fn new() -> (pending: Self)
        ensures
            pending.pushes@ == Seq::<PendingPush>::empty(),
    {
        Self { pushes: Vec::new() }
    }
}

/// Whether the job was put into the buffer `before`, which is `after` from then on; where
/// there is no buffer it is refused.
pub open spec fn buffered(
    before: Option<PendingJobs>,
    push: PendingPush,
    result: Result<(), DispatchNotBuffered>,
    after: Option<PendingJobs>,
) -> bool {
    match before {
        Some(pending) => result is Ok && (after matches Some(longer) && longer.pushes@
            == pending.pushes@.push(push)),
        None => result == Err::<(), _>(DispatchNotBuffered) && after is None,
    }
}

/// Puts a dispatched job into the buffer of the command that runs, if one runs.
pub fn buffer(scope: &mut Option<PendingJobs>, push: PendingPush) -> (result: Result<
    (),
    DispatchNotBuffered,
>)
    ensures
        buffered(*old(scope), push, result, *final(scope)),
{
    match scope {
        Some(pending) => {
            pending.pushes.push(push);
            Ok(())
        },
        None => Err(DispatchNotBuffered),
    }
}

/// The request of a pending job, at `now` in seconds and nanoseconds.
pub fn prepare_request(push: &PendingPush, now: (i64, u32)) -> (result: Result<
    EnqueueRequest,
    JobStoreError,
>)
    requires
        0 <= now.0 && representable(now.0 * 1000),
        now.1 < 1_000_000_000,
    ensures
        match push.payload {
            Err(message) => result == Err::<EnqueueRequest, _>(JobStoreError::Encode(message)),
            Ok(payload) => match resolved_run_at(now.0 * NANOS_PER_SEC + now.1, push.delay) {
                None => result == Err::<EnqueueRequest, _>(JobStoreError::DelayOverflow),
                Some(run_at) => result == Ok::<_, JobStoreError>(
                    EnqueueRequest {
                        job_id: push.job_id,
                        kind: push.kind,
                        payload,
                        run_at_ms: run_at as i64,
                    },
                ) && i64::MIN <= run_at <= i64::MAX,
            },
        },
{
    let payload = match &push.payload {
        Ok(payload) => payload.clone(),
        Err(message) => return Err(JobStoreError::Encode(message.clone())),
    };
    let run_at_ms: i64 = match resolve_run_at_ms(now, push.delay) {
        Ok(run_at_ms) => run_at_ms,
        Err(error) => return Err(error),
    };
    Ok(EnqueueRequest { job_id: push.job_id, kind: push.kind.clone(), payload, run_at_ms })
}

/// Whether the clock can show this instant, in nanoseconds since the epoch.
pub open spec fn clock_shows(now_nanos: int) -> bool {
    0 <= now_nanos && representable(now_nanos / (NANOS_PER_MILLI as int))
}

/// Whether `request` is the request of the pending job at some instant.
pub open spec fn prepared_from(push: PendingPush, request: EnqueueRequest) -> bool {
    &&& request.job_id == push.job_id
    &&& request.kind == push.kind
    &&& push.payload == Ok::<_, String>(request.payload)
    &&& exists|now_nanos: int|
        clock_shows(now_nanos) && #[trigger] resolved_run_at(now_nanos, push.delay) == Some(
            request.run_at_ms as int,
        )
}

/// Whether the pending job is refused with `error`: its payload has no JSON form, or its
/// delay leads beyond what can be represented from some instant.
pub open spec fn refused_with(push: PendingPush, error: JobStoreError) -> bool {
    match push.payload {
        Err(message) => error == JobStoreError::Encode(message),
        Ok(_) => error is DelayOverflow && exists|now_nanos: int|
            clock_shows(now_nanos) && #[trigger] resolved_run_at(now_nanos, push.delay) is None,
    }
}

/// Whether the pending job has a request at some instant.
pub open spec fn preparable(push: PendingPush) -> bool {
    &&& push.payload is Ok
    &&& exists|now_nanos: int|
        clock_shows(now_nanos) && #[trigger] resolved_run_at(now_nanos, push.delay) is Some
}

/// Whether the job at `index` is the first that is refused, with `error`.
pub open spec fn refused_at(pushes: Seq<PendingPush>, index: int, error: JobStoreError) -> bool {
    &&& 0 <= index < pushes.len()
    &&& refused_with(pushes[index], error)
    &&& forall|i: int| 0 <= i < index ==> preparable(#[trigger] pushes[i])
}

/// Whether `result` is what becomes of a batch of pending jobs: all their requests, or
/// the error of the first that is refused.
pub open spec fn batch_prepared(
    pushes: Seq<PendingPush>,
    result: Result<PreparedPendingJobs, JobStoreError>,
) -> bool {
    match result {
        Ok(prepared) => {
            &&& prepared.prepared_count matches Some(count) && count == pushes.len()
            &&& prepared.requests@.len() == pushes.len()
            &&& forall|i: int|
                0 <= i < pushes.len() ==> #[trigger] prepared_from(pushes[i], prepared.requests@[i])
        },
        Err(error) => exists|i: int| #[trigger] refused_at(pushes, i, error),
    }
}

/// Makes the pending jobs ready for a commit, in the order in which they were
/// dispatched; the buffer keeps them. The first job that cannot be enqueued fails the
/// whole batch.
pub fn prepare_pending(scope: &Option<PendingJobs>) -> (result: Result<
    PreparedPendingJobs,
    JobStoreError,
>)
    ensures
        match *scope {
            None => result matches Ok(prepared) && prepared.requests@.len() == 0
                && prepared.prepared_count is None,
            Some(pending) => batch_prepared(pending.pushes@, result),
        },
{
    let Some(pending) = scope else {
        return Ok(PreparedPendingJobs { requests: Vec::new(), prepared_count: None });
    };
    let mut requests: Vec<EnqueueRequest> = Vec::new();
    let mut index: usize = 0;
    while index < pending.pushes.len()
        invariant
            *scope == Some(*pending),
            index <= pending.pushes@.len(),
            requests@.len() == index,
            forall|i: int|
                0 <= i < index ==> #[trigger] prepared_from(pending.pushes@[i], requests@[i]),
        decreases pending.pushes.len() - index,
    {
        let push = &pending.pushes[index];
        let now = utc_now();
        let ghost now_nanos = now.0 * NANOS_PER_SEC + now.1;
        assert(clock_shows(now_nanos));
        match prepare_request(push, now) {
            Ok(request) => {
                assert(resolved_run_at(now_nanos, push.delay) == Some(request.run_at_ms as int));
                assert(prepared_from(*push, request));
                requests.push(request);
            },
            Err(error) => {
                assert(refused_with(pending.pushes@[index as int], error));
                assert forall|j: int| 0 <= j < index implies preparable(
                    #[trigger] pending.pushes@[j],
                ) by {
                    assert(prepared_from(pending.pushes@[j], requests@[j]));
                }
                assert(refused_at(pending.pushes@, index as int, error));
                return Err(error);
            },
        }
        index += 1;
    }
    Ok(PreparedPendingJobs { requests, prepared_count: Some(index) })
}

/// Whether the jobs that were committed are gone from the buffer, and no others.
pub open spec fn taken_out(
    prepared_count: Option<usize>,
    before: Option<PendingJobs>,
    after: Option<PendingJobs>,
) -> bool {
    match prepared_count {
        None => after == before,
        Some(count) => after matches Some(rest) && rest.pushes@ == before->0.pushes@.skip(
            count as int,
        ),
    }
}

impl PreparedPendingJobs {
    /// Takes the requests out, for a commit.
    pub fn take_requests(&mut self) -> (requests: Vec<EnqueueRequest>)
        ensures
            requests@ == old(self).requests@,
            final(self).requests@ == Seq::<EnqueueRequest>::empty(),
            final(self).prepared_count == old(self).prepared_count,
    {
        let mut requests: Vec<EnqueueRequest> = Vec::new();
        std::mem::swap(&mut requests, &mut self.requests);
        requests
    }

    /// Takes the jobs of a commit that succeeded out of the buffer; those that came
    /// later stay.
    pub fn mark_committed(self, scope: &mut Option<PendingJobs>)
        requires
            self.prepared_count matches Some(count) ==> (*old(scope) matches Some(pending) && count
                <= pending.pushes@.len()),
        ensures
            taken_out(self.prepared_count, *old(scope), *final(scope)),
    {
        if let Some(count) = self.prepared_count {
            if let Some(pending) = scope {
                let rest = pending.pushes.split_off(count);
                pending.pushes = rest;
            }
        }
    }
}

/// The request of a job that no command dispatched: a fresh identity, to run `delay`
/// after now.
pub fn enqueue_request<J: StandaloneJob>(job: &J, delay: Option<Delay>) -> (result: Result<
    EnqueueRequest,
    JobStoreError,
>)
    ensures
        exists|push: PendingPush| #[trigger]
            request_made(push, result) && push.kind.0@ == J::KIND@ && push.delay == delay
                && call_ensures(J::encode, (job,), push.payload),
{
    let push = PendingPush {
        job_id: JobId::new(),
        kind: JobKind::new(J::KIND),
        payload: job.encode(),
        delay,
    };
    let now = utc_now();
    let result = prepare_request(&push, now);
    proof {
        let now_nanos = now.0 * NANOS_PER_SEC + now.1;
        assert(clock_shows(now_nanos));
        if result is Ok {
            assert(resolved_run_at(now_nanos, push.delay) == Some(result->Ok_0.run_at_ms as int));
        }
        assert(request_made(push, result));
    }
    result
}

/// Whether `result` is what becomes of the pending job, at some instant.
pub open spec fn request_made(
    push: PendingPush,
    result: Result<EnqueueRequest, JobStoreError>,
) -> bool {
    match result {
        Ok(request) => prepared_from(push, request),
        Err(error) => refused_with(push, error),
    }
}

/// A claim's event, folded into the state that it was planned on, makes the state that
/// the plan stores; so does the event that gives a job up.
pub proof fn law_claims_store_what_their_events_make(
    read: Option<ClaimRead>,
    decoded: Option<Lifecycle<JobState>>,
    worker: WorkerId,
    now_ms: i64,
    lease_ms: i64,
    max_claims: u32,
    claim_id: ClaimId,
    fallback: i64,
    decision: ClaimDecision<WonClaim>,
)
    requires
        planned(
            read,
            decoded,
            worker,
            now_ms,
            lease_ms,
            max_claims,
            claim_id,
            fallback,
            decision,
        ),
    ensures
        decision matches ClaimDecision::Claim { event, state, .. } ==> state_evolved(
            claimable(read, decoded, now_ms)->0,
            event,
        ) == Some(state),
        decision matches ClaimDecision::Abandon { event, state, .. } ==> state_evolved(
            claimable(read, decoded, now_ms)->0,
            event,
        ) == Some(state),
{
}

/// A claim that is won holds the job, and fences off every other claim.
pub proof fn law_a_won_claim_fences_the_others(
    state: JobState,
    worker: WorkerId,
    claim_id: ClaimId,
    other: ClaimId,
)
    requires
        state_claimed(state, worker, claim_id) is Some,
    ensures
        holds(state_claimed(state, worker, claim_id)->0, claim_id),
        holds(state_claimed(state, worker, claim_id)->0, other) ==> other.0@ == claim_id.0@,
{
}

/// No event follows on a job that is finished or given up.
pub proof fn law_finished_jobs_take_no_event(state: JobState, event: JobEvent)
    requires
        state is Done || state is Dead,
    ensures
        state_evolved(state, event) is None,
{
}

/// The event of an acknowledgement can follow on the job that its claim holds.
pub proof fn law_acknowledgements_apply(state: JobState, command: JobCommand)
    requires
        holds(state, command.claim()),
    ensures
        state_evolved(state, command.event()) is Some,
        !holds(state_evolved(state, command.event())->0, command.claim()),
{
}

/// A claim counts no failure, a deferral keeps the failures and forgets the claims, and
/// a retry keeps the claims; what the job carries never changes while it is open.
pub proof fn law_events_touch_only_their_counts(state: JobState, event: JobEvent)
    requires
        state_evolved(state, event) is Some,
    ensures
        ({
            let next = state_evolved(state, event)->0;
            &&& event is Claimed ==> attempt_of(next) == attempt_of(state) && claims_of(next)
                == claims_of(state) + 1
            &&& event is Rescheduled ==> attempt_of(next) == attempt_of(state) && claims_of(next)
                == 0
            &&& event is RetryScheduled ==> claims_of(next) == claims_of(state)
            &&& next is Pending || next is Claimed ==> payload_of(next) == payload_of(state)
                && kind_of(next) == kind_of(state)
        }),
{
}

/// What a commit leaves in the buffer are exactly the jobs that were dispatched after it
/// was prepared.
pub proof fn law_later_jobs_survive_a_commit(
    pushes: Seq<PendingPush>,
    later: Seq<PendingPush>,
    prepared: PreparedPendingJobs,
)
    requires
        batch_prepared(pushes, Ok(prepared)),
    ensures
        prepared.prepared_count matches Some(count) && (pushes + later).skip(count as int) == later,
{
    assert((pushes + later).skip(pushes.len() as int) =~= later);
}

/// Every claim counts one more, and no claim goes beyond the limit: a job whose runs are
/// never acknowledged is given up in the end.
pub proof fn law_claims_stay_within_the_limit(
    read: Option<ClaimRead>,
    decoded: Option<Lifecycle<JobState>>,
    worker: WorkerId,
    now_ms: i64,
    lease_ms: i64,
    max_claims: u32,
    claim_id: ClaimId,
    fallback: i64,
    decision: ClaimDecision<WonClaim>,
)
    requires
        planned(
            read,
            decoded,
            worker,
            now_ms,
            lease_ms,
            max_claims,
            claim_id,
            fallback,
            decision,
        ),
    ensures
        decision matches ClaimDecision::Claim { state, .. } ==> claims_of(state) == claims_of(
            claimable(read, decoded, now_ms)->0,
        ) + 1 && claims_of(state) <= max_claims,
        decision matches ClaimDecision::Abandon { state, .. } ==> state is Dead && claims_of(
            claimable(read, decoded, now_ms)->0,
        ) >= max_claims,
{
}

/// The first claim of a job is the one that follows on its first event, and no later one
/// passes for it.
pub proof fn law_first_runs_follow_on_the_first_event(
    read: Option<ClaimRead>,
    decoded: Option<Lifecycle<JobState>>,
    worker: WorkerId,
    now_ms: i64,
    lease_ms: i64,
    max_claims: u32,
    claim_id: ClaimId,
    fallback: i64,
    decision: ClaimDecision<WonClaim>,
    ctx: JobContext,
)
    requires
        planned(
            read,
            decoded,
            worker,
            now_ms,
            lease_ms,
            max_claims,
            claim_id,
            fallback,
            decision,
        ),
        decision matches ClaimDecision::Claim { won, .. } && ctx.claim_seq == won.claim_seq,
        claim_fits(read, decoded, now_ms, lease_ms),
    ensures
        ctx.first() <==> read->0.version == 1,
{
}

/// A claim that is won hands the job on as it is stored: the run is told the failures
/// that were recorded so far and given what the job carries, under the claim that holds
/// the job from then on; a job that was claimed before keeps both.
pub proof fn law_won_claims_hand_the_job_on(
    read: Option<ClaimRead>,
    decoded: Option<Lifecycle<JobState>>,
    worker: WorkerId,
    now_ms: i64,
    lease_ms: i64,
    max_claims: u32,
    claim_id: ClaimId,
    fallback: i64,
    decision: ClaimDecision<WonClaim>,
)
    requires
        planned(
            read,
            decoded,
            worker,
            now_ms,
            lease_ms,
            max_claims,
            claim_id,
            fallback,
            decision,
        ),
        claim_fits(read, decoded, now_ms, lease_ms),
        decision is Claim,
    ensures
        ({
            let won = decision->won;
            &&& read is Some
            &&& won.claim_seq == read->0.version + 1
            &&& decision->Claim_sequence == won.claim_seq
            &&& decision->lease_until_ms == now_ms + lease_ms
            &&& won.claim_id == claim_id
            &&& match decision->Claim_state {
                JobState::Claimed {
                    kind,
                    payload,
                    worker: holder,
                    claim_id: held,
                    run_at,
                    attempt,
                    claims,
                } => {
                    &&& holder == worker
                    &&& held == claim_id
                    &&& won.attempt == attempt
                    &&& won.args == payload
                    &&& claims <= max_claims
                    &&& match decoded {
                        Some(
                            Lifecycle::Live(
                                JobState::Pending {
                                    kind: kind_before,
                                    payload: payload_before,
                                    run_at: run_before,
                                    attempt: attempt_before,
                                    claims: claims_before,
                                },
                            ),
                        ) => kind == kind_before && payload == payload_before && run_at
                            == run_before && attempt == attempt_before && claims == claims_before
                            + 1,
                        Some(
                            Lifecycle::Live(
                                JobState::Claimed {
                                    kind: kind_before,
                                    payload: payload_before,
                                    run_at: run_before,
                                    attempt: attempt_before,
                                    claims: claims_before,
                                    ..
                                },
                            ),
                        ) => kind == kind_before && payload == payload_before && run_at
                            == run_before && attempt == attempt_before && claims == claims_before
                            + 1,
                        _ => false,
                    }
                },
                _ => false,
            }
            &&& match decision->Claim_event {
                JobEvent::Claimed { worker: holder, claim_id: held, lease_until } => {
                    &&& holder == worker
                    &&& held == claim_id
                    &&& representable(now_ms + lease_ms) ==> lease_until == now_ms + lease_ms
                    &&& !representable(now_ms + lease_ms) ==> lease_until == fallback
                },
                _ => false,
            }
        }),
{
}

/// A job is claimed exactly where it is due: its first run or its retry has come, or its
/// lease ran out or was never written. A job that is not there, that cannot be read, that
/// failed or that is over is left alone. What is due and was claimed too often is given
/// up, by an event that says so.
pub proof fn law_jobs_are_claimed_when_they_are_due(
    read: Option<ClaimRead>,
    decoded: Option<Lifecycle<JobState>>,
    worker: WorkerId,
    now_ms: i64,
    lease_ms: i64,
    max_claims: u32,
    claim_id: ClaimId,
    fallback: i64,
    decision: ClaimDecision<WonClaim>,
)
    requires
        planned(
            read,
            decoded,
            worker,
            now_ms,
            lease_ms,
            max_claims,
            claim_id,
            fallback,
            decision,
        ),
    ensures
        ({
            let due = match (read, decoded) {
                (Some(row), Some(Lifecycle::Live(JobState::Pending { run_at, claims, .. }))) => {
                    if run_at <= now_ms {
                        Some(claims)
                    } else {
                        None
                    }
                },
                (Some(row), Some(Lifecycle::Live(JobState::Claimed { claims, .. }))) => {
                    if row.lease_until_ms is None || row.lease_until_ms->0 < now_ms {
                        Some(claims)
                    } else {
                        None
                    }
                },
                _ => None,
            };
            match (due, decision) {
                (None, ClaimDecision::Skip) => true,
                (Some(_), ClaimDecision::Skip) => !(0 <= read->0.version + 1 <= usize::MAX),
                (Some(claims), ClaimDecision::Claim { .. }) => claims < max_claims,
                (Some(claims), ClaimDecision::Abandon { event, sequence, state }) => {
                    &&& claims >= max_claims
                    &&& sequence == read->0.version + 1
                    &&& event matches JobEvent::Dead { reason: DeadReason::Abandoned, .. }
                    &&& state == JobState::Dead { reason: DeadReason::Abandoned }
                },
                _ => false,
            }
        }),
{
}

/// Nobody claims a job while the lease of the claim that was won runs, and somebody may
/// once it ran out.
pub proof fn law_leases_keep_others_off(
    read: Option<ClaimRead>,
    decoded: Option<Lifecycle<JobState>>,
    worker: WorkerId,
    now_ms: i64,
    lease_ms: i64,
    max_claims: u32,
    claim_id: ClaimId,
    fallback: i64,
    decision: ClaimDecision<WonClaim>,
    read_later: ClaimRead,
    other: WorkerId,
    later_ms: i64,
    other_lease_ms: i64,
    other_max_claims: u32,
    other_claim: ClaimId,
    other_fallback: i64,
    later: ClaimDecision<WonClaim>,
)
    requires
        planned(
            read,
            decoded,
            worker,
            now_ms,
            lease_ms,
            max_claims,
            claim_id,
            fallback,
            decision,
        ),
        claim_fits(read, decoded, now_ms, lease_ms),
        decision is Claim,
        read_later.version == decision->won.claim_seq,
        read_later.lease_until_ms == Some(decision->lease_until_ms),
        planned(
            Some(read_later),
            Some(Lifecycle::Live(decision->Claim_state)),
            other,
            later_ms,
            other_lease_ms,
            other_max_claims,
            other_claim,
            other_fallback,
            later,
        ),
    ensures
        later_ms <= now_ms + lease_ms ==> later is Skip,
        later_ms > now_ms + lease_ms && read_later.version < usize::MAX ==> !(later is Skip),
{
}

/// A job starts with its first event alone, waiting for the run that it was enqueued for,
/// without a failure and without a claim.
pub proof fn law_jobs_start_when_they_are_enqueued(event: JobEvent)
    ensures
        match (event, state_originated(event)) {
            (
                JobEvent::Enqueued { kind, payload, run_at },
                Some(
                    JobState::Pending {
                        kind: own,
                        payload: carried,
                        run_at: first_run,
                        attempt,
                        claims,
                    },
                ),
            ) => own == kind && carried == payload && first_run == run_at && attempt == 0 && claims
                == 0,
            (JobEvent::Enqueued { .. }, _) => false,
            (_, origin) => origin is None,
        },
{
}

/// Which events can follow: an open job can be claimed, whoever holds it, and can be given
/// up; a job that is held can succeed, be retried or be put off; nothing follows on a job
/// that is over, and no job is enqueued twice.
pub proof fn law_events_follow_on_the_jobs_that_they_concern(state: JobState, event: JobEvent)
    ensures
        ({
            let follows = state_evolved(state, event) is Some;
            &&& event is Enqueued ==> !follows
            &&& state is Done || state is Dead ==> !follows
            &&& event is Claimed ==> (follows <==> match state {
                JobState::Pending { claims, .. } => claims < u32::MAX,
                JobState::Claimed { claims, .. } => claims < u32::MAX,
                _ => false,
            })
            &&& event is Succeeded || event is RetryScheduled || event is Rescheduled ==> (follows
                <==> state is Claimed)
            &&& event is Dead ==> (follows <==> state is Claimed || state is Pending)
        }),
{
}

/// Where an event leads: a claimed job is held by the claim that was recorded, a job that
/// is retried or put off waits for the instant that was recorded, one that succeeded is
/// done, and one that was given up says why. A retry has the failures that were recorded
/// with it; every other open job has those that it had.
pub proof fn law_events_lead_where_they_say(state: JobState, event: JobEvent)
    requires
        state_evolved(state, event) is Some,
    ensures
        ({
            let next = state_evolved(state, event)->0;
            &&& next is Done <==> event is Succeeded
            &&& next is Dead <==> event is Dead
            &&& event matches JobEvent::Dead { reason, .. } ==> next == JobState::Dead { reason }
            &&& next is Claimed <==> event is Claimed
            &&& match (event, next) {
                (
                    JobEvent::Claimed { worker, claim_id, .. },
                    JobState::Claimed { worker: holder, claim_id: held, .. },
                ) => holder == worker && held == claim_id,
                (
                    JobEvent::RetryScheduled { run_at, attempt, .. },
                    JobState::Pending { run_at: waits, attempt: failures, .. },
                ) => waits == run_at && failures == attempt,
                (
                    JobEvent::Rescheduled { run_at },
                    JobState::Pending { run_at: waits, claims, .. },
                ) => waits == run_at && claims == 0,
                (_, JobState::Pending { .. }) => false,
                _ => true,
            }
            &&& match (state, next) {
                (
                    JobState::Claimed { kind, payload, attempt, claims, .. },
                    JobState::Pending {
                        kind: own,
                        payload: carried,
                        attempt: failures,
                        claims: counted,
                        ..
                    },
                ) => own == kind && carried == payload && (event is Rescheduled ==> failures
                    == attempt) && (event is RetryScheduled ==> counted == claims),
                (
                    JobState::Claimed { kind, payload, run_at, attempt, claims, .. },
                    JobState::Claimed {
                        kind: own,
                        payload: carried,
                        run_at: waited,
                        attempt: failures,
                        claims: counted,
                        ..
                    },
                ) => own == kind && carried == payload && waited == run_at && failures == attempt
                    && counted == claims + 1,
                (
                    JobState::Pending { kind, payload, run_at, attempt, claims },
                    JobState::Claimed {
                        kind: own,
                        payload: carried,
                        run_at: waited,
                        attempt: failures,
                        claims: counted,
                        ..
                    },
                ) => own == kind && carried == payload && waited == run_at && failures == attempt
                    && counted == claims + 1,
                _ => next is Done || next is Dead,
            }
        }),
{
}

/// A job takes an acknowledgement from the claim that holds it and from no other, and
/// records exactly what it was told; a job that is over or waits takes none.
pub proof fn law_jobs_listen_to_their_holder(
    state: JobState,
    command: JobCommand,
    effect: Result<Effect<JobState>, JobError>,
)
    requires
        call_ensures(<JobState as EventSourced>::transition, (&state, command), effect),
    ensures
        ({
            let speaker = match command {
                JobCommand::Succeed { claim_id } => claim_id,
                JobCommand::RetrySchedule { claim_id, .. } => claim_id,
                JobCommand::Reschedule { claim_id, .. } => claim_id,
                JobCommand::Kill { claim_id, .. } => claim_id,
            };
            match (state, effect) {
                (JobState::Claimed { claim_id, .. }, Ok(Effect::Events(events))) => {
                    &&& claim_id.0@ == speaker.0@
                    &&& events@.len() == 1
                    &&& match (command, events@[0]) {
                        (JobCommand::Succeed { .. }, event) => event is Succeeded,
                        (
                            JobCommand::RetrySchedule { run_at, attempt, error, .. },
                            JobEvent::RetryScheduled {
                                run_at: recorded,
                                attempt: counted,
                                error: said,
                            },
                        ) => recorded == run_at && counted == attempt && said == error,
                        (
                            JobCommand::Reschedule { run_at, .. },
                            JobEvent::Rescheduled { run_at: recorded },
                        ) => recorded == run_at,
                        (
                            JobCommand::Kill { reason, error, .. },
                            JobEvent::Dead { reason: recorded, error: said },
                        ) => recorded == reason && said == error,
                        _ => false,
                    }
                },
                (JobState::Claimed { claim_id, .. }, Err(error)) => claim_id.0@ != speaker.0@
                    && error is Fenced,
                (_, Err(error)) => error is Fenced,
                _ => false,
            }
        }),
{
}

/// The first run of a job is its delay after the instant at which it was asked for,
/// rounded down to a millisecond: never early by a whole one, never late. Only a delay
/// that cannot be counted, or one that leads beyond the last instant, is refused.
pub proof fn law_delays_are_kept(
    now: (i64, u32),
    delay: Option<Delay>,
    result: Result<i64, JobStoreError>,
)
    requires
        0 <= now.0 && representable(now.0 * 1000),
        now.1 < 1_000_000_000,
        call_ensures(resolve_run_at_ms, (now, delay), result),
    ensures
        ({
            let wait = match delay {
                Some(wait) => wait.secs * 1_000_000_000 + wait.nanos,
                None => 0,
            };
            let due = now.0 * 1_000_000_000 + now.1 + wait;
            match result {
                Ok(run_at) => run_at * 1_000_000 <= due < (run_at + 1) * 1_000_000 && run_at
                    <= MAX_UTC_MILLIS,
                Err(error) => error is DelayOverflow && (wait > i64::MAX * 1_000_000 || due >= (
                MAX_UTC_MILLIS + 1) * 1_000_000),
            }
        }),
{
}

/// A job that a command dispatched asks for just what it was dispatched with: its
/// identity, its kind, what it carries, and its delay from now on.
pub proof fn law_dispatched_jobs_are_asked_for_as_they_are(
    push: PendingPush,
    now: (i64, u32),
    result: Result<EnqueueRequest, JobStoreError>,
)
    requires
        0 <= now.0 && representable(now.0 * 1000),
        now.1 < 1_000_000_000,
        call_ensures(prepare_request, (&push, now), result),
    ensures
        match result {
            Ok(request) => {
                let wait = match push.delay {
                    Some(wait) => wait.secs * 1_000_000_000 + wait.nanos,
                    None => 0,
                };
                let due = now.0 * 1_000_000_000 + now.1 + wait;
                &&& request.job_id == push.job_id
                &&& request.kind == push.kind
                &&& push.payload == Ok::<_, String>(request.payload)
                &&& request.run_at_ms * 1_000_000 <= due < (request.run_at_ms + 1) * 1_000_000
            },
            Err(JobStoreError::Encode(message)) => push.payload == Err::<serde_json::Value, _>(
                message,
            ),
            Err(error) => error is DelayOverflow && push.payload is Ok && push.delay is Some,
        },
{
}

/// A request becomes a job as it is: the event and the row that it starts with hold its
/// kind, what it carries and its first run. A first run that is no instant is refused.
pub proof fn law_requests_become_jobs_as_they_are(
    request: EnqueueRequest,
    event: Result<JobEvent, JobStoreError>,
    seed: Result<JobState, JobStoreError>,
)
    requires
        call_ensures(enqueued_event, (&request,), event),
        call_ensures(pending_seed, (&request,), seed),
    ensures
        match (event, seed) {
            (
                Ok(JobEvent::Enqueued { kind, payload, run_at }),
                Ok(
                    JobState::Pending {
                        kind: own,
                        payload: carried,
                        run_at: first_run,
                        attempt,
                        claims,
                    },
                ),
            ) => {
                &&& MIN_UTC_MILLIS <= request.run_at_ms <= MAX_UTC_MILLIS
                &&& kind == request.kind && own == request.kind
                &&& payload == request.payload && carried == request.payload
                &&& run_at == request.run_at_ms && first_run == request.run_at_ms
                &&& attempt == 0 && claims == 0
            },
            (Err(JobStoreError::InvalidInstant(of)), Err(JobStoreError::InvalidInstant(also))) => {
                &&& !(MIN_UTC_MILLIS <= request.run_at_ms <= MAX_UTC_MILLIS)
                &&& of == request.run_at_ms && also == request.run_at_ms
            },
            _ => false,
        },
{
}

/// A run is the first one where its claim follows on the job's first event, and the last
/// one where a budget is known and one more failure uses it up.
pub proof fn law_runs_know_their_place(ctx: JobContext, first: bool, last: bool)
    requires
        call_ensures(JobContext::is_first_execution, (&ctx,), first),
        call_ensures(JobContext::is_final_attempt, (&ctx,), last),
    ensures
        first <==> ctx.claim_seq == 2,
        last <==> ctx.max_attempts > 0 && ctx.attempt + 1 >= ctx.max_attempts,
{
}

/// Jobs that cannot be claimed now, by when they wait and by their lease.
pub proof fn law_waiting_jobs_are_not_runnable(
    state: JobState,
    lease_until_ms: Option<i64>,
    now_ms: i64,
    may: bool,
)
    requires
        call_ensures(is_runnable, (&state, lease_until_ms, now_ms), may),
    ensures
        match state {
            JobState::Pending { run_at, .. } => may <==> now_ms >= run_at,
            JobState::Claimed { .. } => !may <==> (lease_until_ms is Some && lease_until_ms->0
                >= now_ms),
            JobState::Done => !may,
            JobState::Dead { .. } => !may,
        },
{
}

/// A job that a command dispatched waits behind those that it dispatched before, and
/// is still there, unchanged, for as long as its commit fails; a commit that succeeded
/// takes it out, and leaves what was dispatched meanwhile. Outside a command no job is
/// taken.
pub proof fn law_dispatched_jobs_wait_for_their_commit(
    before: PendingJobs,
    push: PendingPush,
    result: Result<(), DispatchNotBuffered>,
    after: Option<PendingJobs>,
    prepared: PreparedPendingJobs,
    committed: Option<PendingJobs>,
    refused: Result<(), DispatchNotBuffered>,
    outside: Option<PendingJobs>,
)
    requires
        buffered(Some(before), push, result, after),
        buffered(None, push, refused, outside),
        batch_prepared(before.pushes@, Ok(prepared)),
        taken_out(prepared.prepared_count, after, committed),
    ensures
        result is Ok,
        after matches Some(longer) && longer.pushes@.len() == before.pushes@.len() + 1
            && longer.pushes@.last() == push && forall|i: int|
            0 <= i < before.pushes@.len() ==> #[trigger] longer.pushes@[i] == before.pushes@[i],
        committed matches Some(rest) && rest.pushes@.len() == 1 && rest.pushes@[0] == push,
        refused is Err,
        outside is None,
{
}

/// Jobs are made ready in the order in which they were dispatched, each as it was
/// dispatched; the first that has no JSON form fails them all, with its own message.
pub proof fn law_batches_are_prepared_whole(
    scope: Option<PendingJobs>,
    result: Result<PreparedPendingJobs, JobStoreError>,
)
    requires
        call_ensures(prepare_pending, (&scope,), result),
    ensures
        match (scope, result) {
            (None, Ok(prepared)) => prepared.requests@.len() == 0,
            (None, Err(_)) => false,
            (Some(pending), Ok(prepared)) => {
                &&& prepared.requests@.len() == pending.pushes@.len()
                &&& forall|i: int|
                    #![trigger prepared.requests@[i]]
                    0 <= i < pending.pushes@.len() ==> prepared.requests@[i].job_id
                        == pending.pushes@[i].job_id && prepared.requests@[i].kind
                        == pending.pushes@[i].kind && pending.pushes@[i].payload == Ok::<
                        _,
                        String,
                    >(prepared.requests@[i].payload)
            },
            (Some(pending), Err(JobStoreError::Encode(message))) => exists|i: int|
                0 <= i < pending.pushes@.len() && (#[trigger] pending.pushes@[i]).payload == Err::<
                    serde_json::Value,
                    _,
                >(message) && forall|j: int|
                    0 <= j < i ==> (#[trigger] pending.pushes@[j]).payload is Ok,
            (Some(pending), Err(error)) => error is DelayOverflow && exists|i: int|
                0 <= i < pending.pushes@.len() && (#[trigger] pending.pushes@[i]).delay is Some
                    && pending.pushes@[i].payload is Ok,
        },
{
    match (scope, result) {
        (Some(pending), Ok(prepared)) => {
            assert forall|i: int|
                #![trigger prepared.requests@[i]]
                0 <= i < pending.pushes@.len() implies prepared.requests@[i].job_id
                == pending.pushes@[i].job_id && prepared.requests@[i].kind
                == pending.pushes@[i].kind && pending.pushes@[i].payload == Ok::<_, String>(
                prepared.requests@[i].payload,
            ) by {
                assert(prepared_from(pending.pushes@[i], prepared.requests@[i]));
            }
        },
        (Some(pending), Err(error)) => {
            let i = choose|i: int| #[trigger] refused_at(pending.pushes@, i, error);
            let push = pending.pushes@[i];
            assert forall|j: int| 0 <= j < i implies (
            #[trigger] pending.pushes@[j]).payload is Ok by {
                assert(preparable(pending.pushes@[j]));
            }
            if push.payload is Ok {
                let now_nanos = choose|now_nanos: int|
                    clock_shows(now_nanos) && #[trigger] resolved_run_at(
                        now_nanos,
                        push.delay,
                    ) is None;
                assert(push.delay is Some);
            }
        },
        _ => {},
    }
}

/// Every kind of job event is stored under a name of its own.
pub proof fn law_event_names_tell_events_apart(
    event: JobEvent,
    other: JobEvent,
    name: String,
    other_name: String,
)
    requires
        call_ensures(JobEvent::event_type, (&event,), name),
        call_ensures(JobEvent::event_type, (&other,), other_name),
        name@ == other_name@,
    ensures
        event is Enqueued <==> other is Enqueued,
        event is Claimed <==> other is Claimed,
        event is Succeeded <==> other is Succeeded,
        event is RetryScheduled <==> other is RetryScheduled,
        event is Rescheduled <==> other is Rescheduled,
        event is Dead <==> other is Dead,
{
    reveal_strlit("JobEnqueued");
    reveal_strlit("JobClaimed");
    reveal_strlit("JobSucceeded");
    reveal_strlit("JobRetryScheduled");
    reveal_strlit("JobRescheduled");
    reveal_strlit("JobDead");
    assert("JobEnqueued"@.len() == 11 && "JobClaimed"@.len() == 10 && "JobSucceeded"@.len() == 12
        && "JobRetryScheduled"@.len() == 17 && "JobRescheduled"@.len() == 14 && "JobDead"@.len()
        == 7);
}

/// A claim under a given identity is decided by its row, what the row holds, and the clock
/// that it is given, and by nothing else; a claim under a fresh identity is decided alike.
pub proof fn law_claims_are_decided_as_planned(
    read: Option<ClaimRead>,
    decoded: Option<Lifecycle<JobState>>,
    worker: WorkerId,
    now_ms: i64,
    lease_ms: i64,
    max_claims: u32,
    claim_id: ClaimId,
    fallback: i64,
    decision: ClaimDecision<WonClaim>,
    fresh: ClaimDecision<WonClaim>,
)
    requires
        claim_fits(read, decoded, now_ms, lease_ms),
        call_ensures(
            plan_claim_as,
            (read, decoded, &worker, now_ms, lease_ms, max_claims, claim_id, fallback),
            decision,
        ),
        call_ensures(plan_claim, (read, decoded, &worker, now_ms, lease_ms, max_claims), fresh),
    ensures
        planned(
            read,
            decoded,
            worker,
            now_ms,
            lease_ms,
            max_claims,
            claim_id,
            fallback,
            decision,
        ),
        decision is Claim <==> fresh is Claim,
        decision is Abandon <==> fresh is Abandon,
        match (decision, fresh) {
            (
                ClaimDecision::Claim { sequence, lease_until_ms, won, .. },
                ClaimDecision::Claim {
                    sequence: fresh_sequence,
                    lease_until_ms: fresh_lease,
                    won: fresh_won,
                    ..
                },
            ) => {
                &&& fresh_sequence == sequence
                &&& fresh_lease == lease_until_ms
                &&& fresh_won.claim_seq == won.claim_seq
                &&& fresh_won.attempt == won.attempt
                &&& fresh_won.args == won.args
                &&& minted(fresh_won.claim_id)
            },
            _ => true,
        },
{
    let (own, recorded) = choose|own: ClaimId, recorded: i64| #[trigger]
        planned(
            read,
            decoded,
            worker,
            now_ms,
            lease_ms,
            max_claims,
            own,
            recorded,
            fresh,
        ) && minted(own) && 0 <= recorded && representable(recorded as int);
    assert(planned(
        read,
        decoded,
        worker,
        now_ms,
        lease_ms,
        max_claims,
        own,
        recorded,
        fresh,
    ));
}

/// Folding gives what the events say, a job is created by its first event and by no
/// command, and the acknowledgement of a job that is gone changes nothing.
pub proof fn law_jobs_are_folded_from_their_events(
    state: JobState,
    event: JobEvent,
    origin: Option<JobState>,
    step: Result<Option<JobState>, JobError>,
    command: JobCommand,
    effect: Result<Effect<JobState>, JobError>,
)
    requires
        call_ensures(<JobState as EventSourced>::originate, (&event,), origin),
        call_ensures(<JobState as EventSourced>::evolve, (&state, &event), step),
        call_ensures(<JobState as EventSourced>::initialize, (command,), effect),
    ensures
        origin == state_originated(event),
        step == Ok::<_, JobError>(state_evolved(state, event)),
        effect matches Ok(Effect::Events(events)) && events@.len() == 0,
{
}

/// An identity is read from its own text, and no other identity is.
pub proof fn law_identities_are_parsed_from_their_text(
    id: JobId,
    other: JobId,
    text: String,
    other_text: String,
    written: &str,
    parsed: Result<JobId, JobIdError>,
)
    requires
        call_ensures(JobId::to_string, (&id,), text),
        call_ensures(JobId::to_string, (&other,), other_text),
        written@ == text@,
        call_ensures(JobId::parse, (written,), parsed),
    ensures
        parsed == Ok::<_, JobIdError>(id),
        text@.len() == 26,
        text@ == other_text@ <==> id == other,
{
    law_identities_are_read_back(id.0);
    law_identities_are_read_back(other.0);
}

/// What becomes of the buffer of a command: a job that is put into it comes last, the
/// requests that are taken out of a batch are all of them, and a commit takes out of the
/// buffer as many jobs as were made ready, the earliest ones.
pub proof fn law_buffers_are_filled_and_emptied_in_order(push: PendingPush)
    ensures
        forall|scope: &mut Option<PendingJobs>, result: Result<(), DispatchNotBuffered>|
            #[trigger] call_ensures(buffer, (scope, push), result) ==> {
                &&& result is Ok <==> *scope is Some
                &&& *final(scope) is Some <==> *scope is Some
                &&& *scope matches Some(pending) ==> (*final(scope))->0.pushes@
                    == pending.pushes@.push(push)
            },
        forall|prepared: &mut PreparedPendingJobs, requests: Vec<EnqueueRequest>|
            #[trigger] call_ensures(
                PreparedPendingJobs::take_requests,
                (prepared,),
                requests,
            ) ==> {
                &&& requests@ == prepared.requests@
                &&& final(prepared).requests@.len() == 0
                &&& final(prepared).prepared_count == prepared.prepared_count
            },
        forall|prepared: PreparedPendingJobs, scope: &mut Option<PendingJobs>|
            #[trigger] call_ensures(
                PreparedPendingJobs::mark_committed,
                (prepared, scope),
                (),
            ) && prepared.prepared_count is Some && *scope is Some && prepared.prepared_count->0
                <= (*scope)->0.pushes@.len() ==> {
                &&& *final(scope) matches Some(rest)
                &&& rest.pushes@.len() == (*scope)->0.pushes@.len() - prepared.prepared_count->0
                &&& forall|i: int|
                    0 <= i < rest.pushes@.len() ==> #[trigger] rest.pushes@[i]
                        == (*scope)->0.pushes@[i + prepared.prepared_count->0]
            },
        forall|prepared: PreparedPendingJobs, scope: &mut Option<PendingJobs>|
            #[trigger] call_ensures(
                PreparedPendingJobs::mark_committed,
                (prepared, scope),
                (),
            ) && prepared.prepared_count is None ==> *final(scope) == *scope,
{
}

} // verus!
