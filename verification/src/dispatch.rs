//! Durable jobs that an entity dispatches.
//!
//! A command handler returns an [`Effect`]: domain events, or one job kicked off. The
//! event that records the job and its enqueue are made together. A job's verdict comes
//! back as a [`DispatchOutcome`], which the entity folds into its [`DispatchedJob`].
//!
//! A run of a job goes through verified steps: [`route`] says what to call first,
//! [`after_reconcile`] and [`after_outcome`] what follows, and [`after_delivery`] how
//! the run ends.

use std::marker::PhantomData;

use vstd::prelude::*;

use crate::entity::EventSourced;
use crate::fx_marker;
use crate::job::{
    DeadReason, JobContext, JobFailure, JobId, JobKind, JobOutcome, Label, PendingPush,
};
use crate::time::Delay;

verus! {

/// A durable job that an entity kicks off. Nothing is assumed of what an implementation
/// returns.
pub trait Job: Clone + std::fmt::Debug + PartialEq + Sized {
    /// What a run of the job is given.
    type Input;

    /// What a settled job produced.
    type Output: Clone + std::fmt::Debug + PartialEq;

    /// Why a job was rejected.
    type Error: Clone + std::fmt::Debug + PartialEq;

    /// The entity that the verdict goes to.
    type Origin: EventSourced;

    const WORKER_NAME: &'static str;

    /// The kind by which the job finds its worker.
    const KIND: &'static str;

    /// What the job is called in logs.
    fn label(&self) -> Label;

    /// The entity that the verdict goes to.
    fn origin_id(&self) -> <Self::Origin as EventSourced>::Id;

    /// What the job carries, in JSON form, or why it has none.
    fn encode(&self) -> Result<serde_json::Value, String>;
}

/// What became of an earlier run whose fate was unknown.
#[derive(Debug)]
pub enum Reconciliation<Output> {
    /// It arrived, with this outcome.
    Settled(Output),
    /// It never arrived; the job may be submitted.
    NotSubmitted,
    /// It cannot be told yet; ask again after the delay.
    Indeterminate(Delay),
}

/// What a command handler decided: domain events, or exactly one job kicked off.
#[derive(Debug)]
pub enum Effect<Entity: EventSourced> {
    /// Pure domain facts; nothing outside was asked for.
    Events(Vec<Entity::Event>),
    /// One durable job, with the event that records it.
    Dispatch(JobDispatch<Entity>),
}

impl<Entity: EventSourced> Effect<Entity> {
    /// The events that the effect records.
    pub open spec fn events(self) -> Seq<Entity::Event> {
        match self {
            Effect::Events(events) => events@,
            Effect::Dispatch(dispatch) => seq![dispatch@.event],
        }
    }

    /// The job that the effect enqueues.
    pub open spec fn pending(self) -> Option<PendingPush> {
        match self {
            Effect::Events(_) => None,
            Effect::Dispatch(dispatch) => Some(dispatch@.pending),
        }
    }
}

/// A job kicked off: the event that records it and the enqueue that goes with it. Only a
/// kick-off makes one, so that neither is ever without the other.
#[derive(Debug)]
pub struct JobDispatch<Entity: EventSourced> {
    event: Entity::Event,
    pending: PendingPush,
}

/// What a job kicked off consists of.
pub struct JobDispatchView<Entity: EventSourced> {
    pub event: Entity::Event,
    pub pending: PendingPush,
}

impl<Entity: EventSourced> View for JobDispatch<Entity> {
    type V = JobDispatchView<Entity>;

    closed spec fn view(&self) -> JobDispatchView<Entity> {
        JobDispatchView { event: self.event, pending: self.pending }
    }
}

impl<Entity: EventSourced> JobDispatch<Entity> {
    /// Takes the dispatch apart, to record its event and to enqueue its job.
    pub fn into_parts(self) -> (parts: (Entity::Event, PendingPush))
        ensures
            parts.0 == self@.event,
            parts.1 == self@.pending,
    {
        (self.event, self.pending)
    }
}

impl<Entity: EventSourced> Effect<Entity> {
    /// Kicks a job off for an entity that does not exist yet, where no earlier dispatch
    /// needs to be guarded.
    pub fn kickoff<J, Index>(job: J) -> (effect: Self) where
        J: Job<Origin = Entity>,
        Entity::Event: From<DispatchEvent<J>>,
        Entity::Jobs: Contains<J, Index>,

        ensures
            effect matches Effect::Dispatch(dispatch) && kicked(job, dispatch),
    {
        Effect::Dispatch(kick(job))
    }
}

/// A value that a command handler can return as its whole outcome.
pub trait Fx<Entity: EventSourced, Marker>: Sized {
    /// Whether the value stands for the handler result.
    spec fn stands_for(self, result: Result<Effect<Entity>, Entity::Error>) -> bool;

    /// The handler result that the value stands for.
    fn produce(self) -> (result: Result<Effect<Entity>, Entity::Error>)
        ensures
            self.stands_for(result),
    ;
}

/// The handler result that a value stands for: an event, several events, a job, the
/// events of a settled job, a guarded dispatch, or the entity's error.
pub fn fx<Entity, Marker, Value>(value: Value) -> (result: Result<
    Effect<Entity>,
    Entity::Error,
>) where Entity: EventSourced, Value: Fx<Entity, Marker>
    ensures
        value.stands_for(result),
{
    value.produce()
}

/// The handler result that records nothing.
pub fn uneventful<Entity: EventSourced>() -> (result: Result<Effect<Entity>, Entity::Error>)
    ensures
        result matches Ok(Effect::Events(events)) && events@ == Seq::<Entity::Event>::empty(),
{
    Ok(Effect::Events(Vec::new()))
}

impl<Entity, Ev> Fx<Entity, fx_marker::Event> for Ev where Entity: EventSourced<Event = Ev> {
    open spec fn stands_for(self, result: Result<Effect<Entity>, Entity::Error>) -> bool {
        result matches Ok(Effect::Events(events)) && events@ == seq![self]
    }

    fn produce(self) -> Result<Effect<Entity>, Entity::Error> {
        let events = vec![self];
        assert(events@ =~= seq![self]);
        Ok(Effect::Events(events))
    }
}

impl<Entity: EventSourced> Fx<Entity, fx_marker::Events> for Vec<Entity::Event> {
    open spec fn stands_for(self, result: Result<Effect<Entity>, Entity::Error>) -> bool {
        result == Ok::<Effect<Entity>, Entity::Error>(Effect::Events(self))
    }

    fn produce(self) -> Result<Effect<Entity>, Entity::Error> {
        Ok(Effect::Events(self))
    }
}

/// `Vec::from` on an array: the items of the array, in their order.
pub assume_specification<Item, const N: usize>[ <Vec<Item> as From<[Item; N]>>::from ](
    items: [Item; N],
) -> (list: Vec<Item>)
    ensures
        list@ == items@,
;

impl<Entity: EventSourced, const N: usize> Fx<Entity, fx_marker::Events> for [Entity::Event; N] {
    open spec fn stands_for(self, result: Result<Effect<Entity>, Entity::Error>) -> bool {
        result matches Ok(Effect::Events(events)) && events@ == self@
    }

    fn produce(self) -> Result<Effect<Entity>, Entity::Error> {
        Ok(Effect::Events(<Vec<Entity::Event> as From<[Entity::Event; N]>>::from(self)))
    }
}

impl<J, Index> Fx<J::Origin, fx_marker::Kickoff<Index>> for J where
    J: Job,
    <J::Origin as EventSourced>::Event: From<DispatchEvent<J>>,
    <J::Origin as EventSourced>::Jobs: Contains<J, Index>,
 {
    open spec fn stands_for(
        self,
        result: Result<Effect<J::Origin>, <J::Origin as EventSourced>::Error>,
    ) -> bool {
        result matches Ok(Effect::Dispatch(dispatch)) && kicked(self, dispatch)
    }

    fn produce(self) -> Result<Effect<J::Origin>, <J::Origin as EventSourced>::Error> {
        Ok(Effect::kickoff(self))
    }
}

impl<Entity: EventSourced> Fx<Entity, fx_marker::Guarded> for JobDispatch<Entity> {
    open spec fn stands_for(self, result: Result<Effect<Entity>, Entity::Error>) -> bool {
        result == Ok::<Effect<Entity>, Entity::Error>(Effect::Dispatch(self))
    }

    fn produce(self) -> Result<Effect<Entity>, Entity::Error> {
        Ok(Effect::Dispatch(self))
    }
}

impl<Entity, Error> Fx<Entity, fx_marker::Failure> for Error where
    Entity: EventSourced<Error = Error>,
 {
    open spec fn stands_for(self, result: Result<Effect<Entity>, Error>) -> bool {
        result == Err::<Effect<Entity>, Error>(self)
    }

    fn produce(self) -> Result<Effect<Entity>, Error> {
        Err(self)
    }
}

impl<J, Index> Fx<J::Origin, fx_marker::Settlement<Index>> for Vec<DispatchEvent<J>> where
    J: Job,
    <J::Origin as EventSourced>::Event: From<DispatchEvent<J>>,
    <J::Origin as EventSourced>::Jobs: Contains<J, Index>,
 {
    open spec fn stands_for(
        self,
        result: Result<Effect<J::Origin>, <J::Origin as EventSourced>::Error>,
    ) -> bool {
        result matches Ok(Effect::Events(events)) && wrapped_events(self@, events@)
    }

    fn produce(self) -> Result<Effect<J::Origin>, <J::Origin as EventSourced>::Error> {
        let ghost all = self@;
        let mut events: Vec<<J::Origin as EventSourced>::Event> = Vec::new();
        for from in iter: self
            invariant
                iter.seq() == all,
                events@.len() == iter.index(),
                forall|i: int|
                    0 <= i < events@.len() ==> wrapped_event(all[i], #[trigger] events@[i]),
        {
            assert(from == all[iter.index() as int]);
            let event = <<J::Origin as EventSourced>::Event as From<DispatchEvent<J>>>::from(from);
            assert(wrapped_event(from, event));
            events.push(event);
        }
        Ok(Effect::Events(events))
    }
}

/// Whether `event` is how the entity records the dispatch event.
pub open spec fn wrapped_event<J: Job>(
    from: DispatchEvent<J>,
    event: <J::Origin as EventSourced>::Event,
) -> bool where <J::Origin as EventSourced>::Event: From<DispatchEvent<J>> {
    call_ensures(
        <<J::Origin as EventSourced>::Event as From<DispatchEvent<J>>>::from,
        (from,),
        event,
    )
}

/// Whether `events` are how the entity records the dispatch events, one for one.
pub open spec fn wrapped_events<J: Job>(
    from: Seq<DispatchEvent<J>>,
    events: Seq<<J::Origin as EventSourced>::Event>,
) -> bool where <J::Origin as EventSourced>::Event: From<DispatchEvent<J>> {
    &&& events.len() == from.len()
    &&& forall|i: int| 0 <= i < from.len() ==> wrapped_event(from[i], #[trigger] events[i])
}

/// A type-level list of jobs that is empty.
pub struct Nil;

/// A type-level list of jobs: the first one, and the rest.
pub struct Cons<Head, Tail>(PhantomData<Head>, PhantomData<Tail>);

/// The jobs that an entity may dispatch.
pub trait JobList {

}

impl JobList for Nil {

}

impl<Head: Job, Tail: JobList> JobList for Cons<Head, Tail> {

}

/// Says that a job is in a list; `Index` says where.
pub trait Contains<J: Job, Index> {

}

/// The job is the first of the list.
pub struct Here;

/// The job is further down the list.
pub struct There<Index>(PhantomData<Index>);

impl<J: Job, Tail> Contains<J, Here> for Cons<J, Tail> {

}

impl<J: Job, Head, Tail, Index> Contains<J, There<Index>> for Cons<Head, Tail> where
    Tail: Contains<J, Index>,
 {

}

/// What a dispatched job is to the entity that dispatched it.
#[derive(Debug, PartialEq)]
pub enum DispatchedJob<J: Job> {
    /// Nothing is dispatched.
    Idle,
    /// A job runs; its verdict is not there yet.
    InFlight { job_id: JobId },
    /// The job settled with success.
    Confirmed(Settled<J::Output>),
    /// The job settled with a failure.
    Failed(SettledFailure<J::Error>),
}

/// A step of a dispatched job, on the entity's stream.
#[derive(Debug, PartialEq)]
pub enum DispatchEvent<J: Job> {
    /// The job was kicked off.
    Dispatched { job_id: JobId, job: J },
    /// The job settled with success.
    Confirmed(Settled<J::Output>),
    /// The job settled with a failure.
    Failed(SettledFailure<J::Error>),
}

/// A job that settled with success. Only a run that settled makes one, or what such a run
/// left in storage.
#[derive(Debug, PartialEq)]
pub struct Settled<Output> {
    job_id: JobId,
    output: Output,
    attempts: u32,
}

/// What a job that settled with success left.
pub struct SettledView<Output> {
    pub job_id: JobId,
    pub output: Output,
    pub attempts: u32,
}

impl<Output> View for Settled<Output> {
    type V = SettledView<Output>;

    closed spec fn view(&self) -> SettledView<Output> {
        SettledView { job_id: self.job_id, output: self.output, attempts: self.attempts }
    }
}

/// A job that settled with a failure. Only a run that settled makes one, or what such a
/// run left in storage.
#[derive(Debug, PartialEq)]
pub struct SettledFailure<DomainError> {
    job_id: JobId,
    failure: DispatchFailure<DomainError>,
    attempts: u32,
}

/// What a job that settled with a failure left.
pub struct SettledFailureView<DomainError> {
    pub job_id: JobId,
    pub failure: DispatchFailure<DomainError>,
    pub attempts: u32,
}

impl<DomainError> View for SettledFailure<DomainError> {
    type V = SettledFailureView<DomainError>;

    closed spec fn view(&self) -> SettledFailureView<DomainError> {
        SettledFailureView { job_id: self.job_id, failure: self.failure, attempts: self.attempts }
    }
}

/// Why a dispatched job failed.
#[derive(Debug, PartialEq)]
pub enum DispatchFailure<DomainError> {
    /// It was rejected for good.
    Rejected(DomainError),
    /// It was given up without an answer.
    DeadLettered { reason: DeadReason, detail: String },
}

/// A verdict on its way to the entity. Only a run of the job makes one.
#[derive(Debug)]
pub struct DispatchOutcome<J: Job>(Verdict<J>);

impl<J: Job> View for DispatchOutcome<J> {
    type V = Verdict<J>;

    closed spec fn view(&self) -> Verdict<J> {
        self.0
    }
}

/// How a job was judged.
#[derive(Debug)]
pub enum Verdict<J: Job> {
    Confirmed(Settled<J::Output>),
    Failed(SettledFailure<J::Error>),
}

/// Why the guard of a dispatched job refuses.
#[derive(Clone, Copy, Debug, Eq, PartialEq, Structural)]
pub enum DispatchRefused {
    /// A job is under way.
    InFlight,
    /// The job was confirmed already.
    AlreadyConfirmed,
    /// The verdict does not belong to the state.
    OutcomeMismatch,
}

/// An event that cannot follow on the state.
#[derive(Clone, Copy, Debug, Eq, PartialEq, Structural)]
pub struct DispatchReplay;

/// Whether `dispatch` kicks the job off: one fresh identity for the event that records
/// it and for the enqueue, which carries what the job itself gives.
pub open spec fn kicked<J: Job>(job: J, dispatch: JobDispatch<J::Origin>) -> bool where
    <J::Origin as EventSourced>::Event: From<DispatchEvent<J>>,
 {
    exists|copy: J| #[trigger]
        cloned(job, copy) && call_ensures(
            <<J::Origin as EventSourced>::Event as From<DispatchEvent<J>>>::from,
            (DispatchEvent::Dispatched { job_id: dispatch@.pending.job_id, job: copy },),
            dispatch@.event,
        ) && call_ensures(J::encode, (&job,), dispatch@.pending.payload)
            && dispatch@.pending.kind.0@ == J::KIND@ && dispatch@.pending.delay is None
}

/// Kicks a job off.
fn kick<J: Job>(job: J) -> (dispatch: JobDispatch<J::Origin>) where
    <J::Origin as EventSourced>::Event: From<DispatchEvent<J>>,

    ensures
        kicked(job, dispatch),
{
    let job_id = JobId::new();
    let copy = job.clone();
    assert(cloned(job, copy));
    let event = <<J::Origin as EventSourced>::Event as From<DispatchEvent<J>>>::from(
        DispatchEvent::Dispatched { job_id, job: copy },
    );
    let payload = job.encode();
    JobDispatch {
        event,
        pending: PendingPush { job_id, kind: JobKind::new(J::KIND), payload, delay: None },
    }
}

impl<Output> Settled<Output> {
    pub fn job_id(&self) -> (id: JobId)
        ensures
            id == self@.job_id,
    {
        self.job_id
    }

    pub fn output(&self) -> (output: &Output)
        ensures
            *output == self@.output,
    {
        &self.output
    }

    /// How many runs the job took.
    pub fn attempts(&self) -> (attempts: u32)
        ensures
            attempts == self@.attempts,
    {
        self.attempts
    }

    /// The settled job that storage holds.
    pub fn from_stored(job_id: JobId, output: Output, attempts: u32) -> (settled: Self)
        ensures
            settled@ == (SettledView { job_id, output, attempts }),
    {
        Self { job_id, output, attempts }
    }

    /// What the job produced.
    pub fn into_output(self) -> (output: Output)
        ensures
            output == self@.output,
    {
        self.output
    }

    /// A settled job for tests.
    pub fn simulated(job_id: JobId, output: Output, attempts: u32) -> (settled: Self)
        ensures
            settled@ == (SettledView { job_id, output, attempts }),
    {
        Self { job_id, output, attempts }
    }
}

impl<Output: Clone> Clone for Settled<Output> {
    fn clone(&self) -> (copy: Self)
        ensures
            settled_copied(*self, copy),
    {
        Self { job_id: self.job_id, output: self.output.clone(), attempts: self.attempts }
    }
}

/// Whether `copy` is a copy of `settled`.
pub open spec fn settled_copied<Output: Clone>(
    settled: Settled<Output>,
    copy: Settled<Output>,
) -> bool {
    &&& copy@.job_id == settled@.job_id
    &&& copy@.attempts == settled@.attempts
    &&& cloned(settled@.output, copy@.output)
}

impl<DomainError> SettledFailure<DomainError> {
    pub fn job_id(&self) -> (id: JobId)
        ensures
            id == self@.job_id,
    {
        self.job_id
    }

    pub fn failure(&self) -> (failure: &DispatchFailure<DomainError>)
        ensures
            *failure == self@.failure,
    {
        &self.failure
    }

    pub fn attempts(&self) -> (attempts: u32)
        ensures
            attempts == self@.attempts,
    {
        self.attempts
    }

    /// The settled failure that storage holds.
    pub fn from_stored(
        job_id: JobId,
        failure: DispatchFailure<DomainError>,
        attempts: u32,
    ) -> (settled: Self)
        ensures
            settled@ == (SettledFailureView { job_id, failure, attempts }),
    {
        Self { job_id, failure, attempts }
    }

    /// Why the job failed.
    pub fn into_failure(self) -> (failure: DispatchFailure<DomainError>)
        ensures
            failure == self@.failure,
    {
        self.failure
    }

    /// A settled failure for tests.
    pub fn simulated(
        job_id: JobId,
        failure: DispatchFailure<DomainError>,
        attempts: u32,
    ) -> (settled: Self)
        ensures
            settled@ == (SettledFailureView { job_id, failure, attempts }),
    {
        Self { job_id, failure, attempts }
    }
}

impl<DomainError: Clone> Clone for DispatchFailure<DomainError> {
    fn clone(&self) -> (copy: Self)
        ensures
            failure_copied(*self, copy),
    {
        match self {
            DispatchFailure::Rejected(error) => DispatchFailure::Rejected(error.clone()),
            DispatchFailure::DeadLettered { reason, detail } => DispatchFailure::DeadLettered {
                reason: *reason,
                detail: detail.clone(),
            },
        }
    }
}

/// Whether `copy` is a copy of `failure`.
pub open spec fn failure_copied<DomainError: Clone>(
    failure: DispatchFailure<DomainError>,
    copy: DispatchFailure<DomainError>,
) -> bool {
    match (failure, copy) {
        (DispatchFailure::Rejected(error), DispatchFailure::Rejected(error_copy)) => cloned(
            error,
            error_copy,
        ),
        (DispatchFailure::DeadLettered { .. }, DispatchFailure::DeadLettered { .. }) => failure
            == copy,
        _ => false,
    }
}

impl<DomainError: Clone> Clone for SettledFailure<DomainError> {
    fn clone(&self) -> (copy: Self)
        ensures
            settled_failure_copied(*self, copy),
    {
        Self { job_id: self.job_id, failure: self.failure.clone(), attempts: self.attempts }
    }
}

/// Whether `copy` is a copy of the settled failure.
pub open spec fn settled_failure_copied<DomainError: Clone>(
    settled: SettledFailure<DomainError>,
    copy: SettledFailure<DomainError>,
) -> bool {
    &&& copy@.job_id == settled@.job_id
    &&& copy@.attempts == settled@.attempts
    &&& failure_copied(settled@.failure, copy@.failure)
}

/// Whether `copy` is a copy of the state.
pub open spec fn dispatched_copied<J: Job>(state: DispatchedJob<J>, copy: DispatchedJob<J>) -> bool {
    match (state, copy) {
        (DispatchedJob::Idle, DispatchedJob::Idle) => true,
        (DispatchedJob::InFlight { .. }, DispatchedJob::InFlight { .. }) => state == copy,
        (DispatchedJob::Confirmed(settled), DispatchedJob::Confirmed(settled_copy)) => {
            settled_copied(settled, settled_copy)
        },
        (DispatchedJob::Failed(settled), DispatchedJob::Failed(settled_copy)) => {
            settled_failure_copied(settled, settled_copy)
        },
        _ => false,
    }
}

impl<J: Job> Clone for DispatchedJob<J> {
    fn clone(&self) -> (copy: Self)
        ensures
            dispatched_copied(*self, copy),
    {
        match self {
            DispatchedJob::Idle => DispatchedJob::Idle,
            DispatchedJob::InFlight { job_id } => DispatchedJob::InFlight { job_id: *job_id },
            DispatchedJob::Confirmed(settled) => DispatchedJob::Confirmed(settled.clone()),
            DispatchedJob::Failed(settled) => DispatchedJob::Failed(settled.clone()),
        }
    }
}

/// Whether `copy` is a copy of the event.
pub open spec fn event_copied<J: Job>(event: DispatchEvent<J>, copy: DispatchEvent<J>) -> bool {
    match (event, copy) {
        (
            DispatchEvent::Dispatched { job_id, job },
            DispatchEvent::Dispatched { job_id: id_copy, job: job_copy },
        ) => job_id == id_copy && cloned(job, job_copy),
        (DispatchEvent::Confirmed(settled), DispatchEvent::Confirmed(settled_copy)) => {
            settled_copied(settled, settled_copy)
        },
        (DispatchEvent::Failed(settled), DispatchEvent::Failed(settled_copy)) => {
            settled_failure_copied(settled, settled_copy)
        },
        _ => false,
    }
}

impl<J: Job> Clone for DispatchEvent<J> {
    fn clone(&self) -> (copy: Self)
        ensures
            event_copied(*self, copy),
    {
        match self {
            DispatchEvent::Dispatched { job_id, job } => DispatchEvent::Dispatched {
                job_id: *job_id,
                job: job.clone(),
            },
            DispatchEvent::Confirmed(settled) => DispatchEvent::Confirmed(settled.clone()),
            DispatchEvent::Failed(settled) => DispatchEvent::Failed(settled.clone()),
        }
    }
}

impl<J: Job> Clone for DispatchOutcome<J> {
    fn clone(&self) -> (copy: Self)
        ensures
            event_copied(self@.event(), copy@.event()),
    {
        match &self.0 {
            Verdict::Confirmed(settled) => Self(Verdict::Confirmed(settled.clone())),
            Verdict::Failed(settled) => Self(Verdict::Failed(settled.clone())),
        }
    }
}

impl<J: Job> DispatchOutcome<J> {
    /// Whether the verdict is that the job settled with success.
    pub open spec fn confirms(self, job_id: JobId, output: J::Output, attempts: u32) -> bool {
        self@ matches Verdict::Confirmed(settled) && settled@ == (SettledView {
            job_id,
            output,
            attempts,
        })
    }

    /// Whether the verdict is that the job settled with the failure.
    pub open spec fn fails(
        self,
        job_id: JobId,
        failure: DispatchFailure<J::Error>,
        attempts: u32,
    ) -> bool {
        self@ matches Verdict::Failed(settled) && settled@ == (SettledFailureView {
            job_id,
            failure,
            attempts,
        })
    }

    pub(crate) fn confirmed(job_id: JobId, output: J::Output, attempts: u32) -> (outcome: Self)
        ensures
            outcome.confirms(job_id, output, attempts),
    {
        Self(Verdict::Confirmed(Settled { job_id, output, attempts }))
    }

    pub(crate) fn failed(
        job_id: JobId,
        failure: DispatchFailure<J::Error>,
        attempts: u32,
    ) -> (outcome: Self)
        ensures
            outcome.fails(job_id, failure, attempts),
    {
        Self(Verdict::Failed(SettledFailure { job_id, failure, attempts }))
    }

    /// How the job was judged.
    pub fn verdict(&self) -> (verdict: &Verdict<J>)
        ensures
            *verdict == self@,
    {
        &self.0
    }

    /// A confirmed verdict for tests.
    pub fn simulated_confirmed(job_id: JobId, output: J::Output, attempts: u32) -> (outcome: Self)
        ensures
            outcome.confirms(job_id, output, attempts),
    {
        Self::confirmed(job_id, output, attempts)
    }

    /// A failed verdict for tests.
    pub fn simulated_failed(
        job_id: JobId,
        failure: DispatchFailure<J::Error>,
        attempts: u32,
    ) -> (outcome: Self)
        ensures
            outcome.fails(job_id, failure, attempts),
    {
        Self::failed(job_id, failure, attempts)
    }
}

impl<J: Job> Verdict<J> {
    /// The job that the verdict is on.
    pub open spec fn job(self) -> JobId {
        match self {
            Verdict::Confirmed(settled) => settled@.job_id,
            Verdict::Failed(settled) => settled@.job_id,
        }
    }

    /// The event that the verdict is recorded by.
    pub open spec fn event(self) -> DispatchEvent<J> {
        match self {
            Verdict::Confirmed(settled) => DispatchEvent::Confirmed(settled),
            Verdict::Failed(settled) => DispatchEvent::Failed(settled),
        }
    }
}

/// Why another job may not be dispatched, if it may not.
pub open spec fn dispatch_refusal<J: Job>(state: DispatchedJob<J>) -> Option<DispatchRefused> {
    match state {
        DispatchedJob::Idle => None,
        DispatchedJob::Failed(_) => None,
        DispatchedJob::InFlight { .. } => Some(DispatchRefused::InFlight),
        DispatchedJob::Confirmed(_) => Some(DispatchRefused::AlreadyConfirmed),
    }
}

/// The events that a verdict justifies: its own for the job that runs; none where it
/// was recorded already.
pub open spec fn settlement<J: Job>(state: DispatchedJob<J>, verdict: Verdict<J>) -> Result<
    Seq<DispatchEvent<J>>,
    DispatchRefused,
> {
    match state {
        DispatchedJob::InFlight { job_id } if job_id == verdict.job() => Ok(seq![verdict.event()]),
        DispatchedJob::Confirmed(settled) if verdict is Confirmed && settled@.job_id
            == verdict.job() => Ok(Seq::empty()),
        DispatchedJob::Failed(settled) if verdict is Failed && settled@.job_id
            == verdict.job() => Ok(Seq::empty()),
        _ => Err(DispatchRefused::OutcomeMismatch),
    }
}

/// Whether the event may take the state from `before` to `after`.
pub open spec fn dispatch_evolved<J: Job>(
    before: DispatchedJob<J>,
    event: DispatchEvent<J>,
    after: DispatchedJob<J>,
) -> bool {
    match (before, event) {
        (DispatchedJob::Idle, DispatchEvent::Dispatched { job_id, .. }) => after
            == (DispatchedJob::<J>::InFlight { job_id }),
        (DispatchedJob::Failed(_), DispatchEvent::Dispatched { job_id, .. }) => after
            == (DispatchedJob::<J>::InFlight { job_id }),
        (DispatchedJob::InFlight { job_id }, DispatchEvent::Confirmed(settled)) => job_id
            == settled@.job_id && (after matches DispatchedJob::Confirmed(copy) && settled_copied(
            settled,
            copy,
        )),
        (DispatchedJob::InFlight { job_id }, DispatchEvent::Failed(settled)) => job_id
            == settled@.job_id && (after matches DispatchedJob::Failed(copy)
            && settled_failure_copied(settled, copy)),
        _ => false,
    }
}

/// Whether the event can follow on the state.
pub open spec fn dispatch_applies<J: Job>(state: DispatchedJob<J>, event: DispatchEvent<J>) -> bool {
    match (state, event) {
        (DispatchedJob::Idle, DispatchEvent::Dispatched { .. }) => true,
        (DispatchedJob::Failed(_), DispatchEvent::Dispatched { .. }) => true,
        (DispatchedJob::InFlight { job_id }, DispatchEvent::Confirmed(settled)) => job_id
            == settled@.job_id,
        (DispatchedJob::InFlight { job_id }, DispatchEvent::Failed(settled)) => job_id
            == settled@.job_id,
        _ => false,
    }
}

impl<J: Job> Default for DispatchedJob<J> {
    fn default() -> (state: Self)
        ensures
            state == DispatchedJob::<J>::Idle,
    {
        DispatchedJob::Idle
    }
}

impl<J: Job> DispatchedJob<J> {
    /// Kicks a job off, unless one runs or the last one was confirmed; a failed one may
    /// be tried again with a fresh job.
    pub fn dispatch<Index>(&self, job: J) -> (result: Result<
        JobDispatch<J::Origin>,
        DispatchRefused,
    >) where
        <J::Origin as EventSourced>::Event: From<DispatchEvent<J>>,
        <J::Origin as EventSourced>::Jobs: Contains<J, Index>,

        ensures
            match dispatch_refusal(*self) {
                None => result matches Ok(dispatch) && kicked(job, dispatch),
                Some(refused) => result == Err::<JobDispatch<J::Origin>, _>(refused),
            },
    {
        match self {
            DispatchedJob::Idle => Ok(kick(job)),
            DispatchedJob::Failed(_) => Ok(kick(job)),
            DispatchedJob::InFlight { .. } => Err(DispatchRefused::InFlight),
            DispatchedJob::Confirmed(_) => Err(DispatchRefused::AlreadyConfirmed),
        }
    }

    /// The events that a delivered verdict justifies. A verdict that comes a second
    /// time is absorbed: it justifies no event and is no error.
    pub fn settle(&self, outcome: DispatchOutcome<J>) -> (result: Result<
        Vec<DispatchEvent<J>>,
        DispatchRefused,
    >)
        ensures
            match settlement(*self, outcome@) {
                Ok(expected) => result matches Ok(events) && events@ == expected,
                Err(refused) => result == Err::<Vec<DispatchEvent<J>>, _>(refused),
            },
    {
        match (self, outcome.0) {
            (DispatchedJob::InFlight { job_id }, Verdict::Confirmed(settled)) => {
                if *job_id == settled.job_id {
                    let events = vec![DispatchEvent::Confirmed(settled)];
                    assert(events@ =~= settlement(*self, outcome@)->Ok_0);
                    Ok(events)
                } else {
                    Err(DispatchRefused::OutcomeMismatch)
                }
            },
            (DispatchedJob::InFlight { job_id }, Verdict::Failed(settled)) => {
                if *job_id == settled.job_id {
                    let events = vec![DispatchEvent::Failed(settled)];
                    assert(events@ =~= settlement(*self, outcome@)->Ok_0);
                    Ok(events)
                } else {
                    Err(DispatchRefused::OutcomeMismatch)
                }
            },
            (DispatchedJob::Confirmed(existing), Verdict::Confirmed(settled)) => {
                if existing.job_id == settled.job_id {
                    Ok(Vec::new())
                } else {
                    Err(DispatchRefused::OutcomeMismatch)
                }
            },
            (DispatchedJob::Failed(existing), Verdict::Failed(settled)) => {
                if existing.job_id == settled.job_id {
                    Ok(Vec::new())
                } else {
                    Err(DispatchRefused::OutcomeMismatch)
                }
            },
            _ => Err(DispatchRefused::OutcomeMismatch),
        }
    }

    /// The state after a first event.
    pub fn originate(event: &DispatchEvent<J>) -> (result: Result<Self, DispatchReplay>)
        ensures
            match result {
                Ok(state) => dispatch_evolved(DispatchedJob::Idle, *event, state),
                Err(_) => !dispatch_applies(DispatchedJob::Idle, *event),
            },
    {
        DispatchedJob::Idle.evolve(event)
    }

    /// The state after one more event.
    pub fn evolve(&self, event: &DispatchEvent<J>) -> (result: Result<Self, DispatchReplay>)
        ensures
            match result {
                Ok(state) => dispatch_evolved(*self, *event, state),
                Err(_) => !dispatch_applies(*self, *event),
            },
    {
        match (self, event) {
            (DispatchedJob::Idle, DispatchEvent::Dispatched { job_id, .. }) => Ok(
                DispatchedJob::InFlight { job_id: *job_id },
            ),
            (DispatchedJob::Failed(_), DispatchEvent::Dispatched { job_id, .. }) => Ok(
                DispatchedJob::InFlight { job_id: *job_id },
            ),
            (DispatchedJob::InFlight { job_id }, DispatchEvent::Confirmed(settled)) => {
                if *job_id == settled.job_id {
                    Ok(DispatchedJob::Confirmed(settled.clone()))
                } else {
                    Err(DispatchReplay)
                }
            },
            (DispatchedJob::InFlight { job_id }, DispatchEvent::Failed(settled)) => {
                if *job_id == settled.job_id {
                    Ok(DispatchedJob::Failed(settled.clone()))
                } else {
                    Err(DispatchReplay)
                }
            },
            _ => Err(DispatchReplay),
        }
    }
}

/// Why a verdict did not reach the entity.
#[derive(Clone, Debug)]
pub enum OriginDeliveryError {
    /// The entity could not be reached or written; another try is expected to succeed.
    Transport(String),
    /// The entity refused the verdict; no other try can mend that.
    Refused(String),
}

/// How sending a command to an entity failed.
#[derive(Clone, Copy, Debug, Eq, PartialEq, Structural)]
pub enum SendFailure {
    /// The entity's own error.
    User,
    Conflict,
    Connection,
    Deserialization,
    Unexpected,
}

/// Why a verdict did not reach the entity, where sending it failed.
pub fn delivery_error(failure: SendFailure, message: String) -> (error: OriginDeliveryError)
    ensures
        error == if failure is User {
            OriginDeliveryError::Refused(message)
        } else {
            OriginDeliveryError::Transport(message)
        },
{
    match failure {
        SendFailure::User => OriginDeliveryError::Refused(message),
        _ => OriginDeliveryError::Transport(message),
    }
}

/// How long a worker waits after a verdict could not be delivered.
#[derive(Clone, Copy, Debug, Eq, PartialEq, Structural)]
pub struct DeliveryPolicy {
    /// Before a delivery that failed on the way is tried again.
    pub retry_delay: Delay,
    /// After the entity refused the verdict.
    pub refused_backoff: Delay,
}

impl Default for DeliveryPolicy {
    fn default() -> (policy: Self)
        ensures
            policy.retry_delay == (Delay { secs: 5, nanos: 0 }),
            policy.refused_backoff == (Delay { secs: 300, nanos: 0 }),
    {
        Self { retry_delay: Delay::from_secs(5), refused_backoff: Delay::from_secs(300) }
    }
}

/// How long to wait after this failure.
pub open spec fn deferral(policy: DeliveryPolicy, error: OriginDeliveryError) -> Delay {
    match error {
        OriginDeliveryError::Transport(_) => policy.retry_delay,
        OriginDeliveryError::Refused(_) => policy.refused_backoff,
    }
}

/// How long the worker waits after this failure.
pub fn delivery_deferral(ctx: &JobContext, error: &OriginDeliveryError) -> (delay: Delay)
    ensures
        delay == deferral(ctx.delivery, *error),
{
    match error {
        OriginDeliveryError::Transport(_) => ctx.delivery.retry_delay,
        OriginDeliveryError::Refused(_) => ctx.delivery.refused_backoff,
    }
}

/// What a run calls first.
#[derive(Clone, Copy, Debug, Eq, PartialEq, Structural)]
pub enum Route {
    /// The outside, for the first time.
    Submit,
    /// The outside, about an earlier run.
    Reconcile,
}

/// What a run calls first: only the first run ever submits without asking.
pub fn route(ctx: &JobContext) -> (first: Route)
    ensures
        first == if ctx.first() {
            Route::Submit
        } else {
            Route::Reconcile
        },
{
    if ctx.is_first_execution() {
        Route::Submit
    } else {
        Route::Reconcile
    }
}

/// What a run does once it knows about an earlier one.
pub enum Reconciled<Output, Error> {
    /// Submit: nothing arrived before.
    Submit,
    /// Go on with this outcome.
    Outcome(Result<JobOutcome<Output>, JobFailure<Error>>),
    /// End, to run again after the delay.
    Defer(Delay),
}

/// What a run does once it knows about an earlier one.
pub fn after_reconcile<Output, Error>(
    result: Result<Reconciliation<Output>, JobFailure<Error>>,
) -> (next: Reconciled<Output, Error>)
    ensures
        next == match result {
            Ok(Reconciliation::Settled(output)) => Reconciled::Outcome(Ok(JobOutcome::Done(output))),
            Ok(Reconciliation::Indeterminate(delay)) => Reconciled::Defer(delay),
            Ok(Reconciliation::NotSubmitted) => Reconciled::Submit,
            Err(failure) => Reconciled::Outcome(Err(failure)),
        },
{
    match result {
        Ok(Reconciliation::Settled(output)) => Reconciled::Outcome(Ok(JobOutcome::Done(output))),
        Ok(Reconciliation::Indeterminate(delay)) => Reconciled::Defer(delay),
        Ok(Reconciliation::NotSubmitted) => Reconciled::Submit,
        Err(failure) => Reconciled::Outcome(Err(failure)),
    }
}

/// What a run still owes while its verdict is delivered.
pub enum Owed<Error> {
    /// To end with success.
    Success,
    /// To end as rejected.
    Rejection(Error),
    /// To end as failed, whether the verdict arrives or not.
    Failure(Error),
}

/// What a run does with its outcome.
pub enum Outcome<J: Job> {
    /// Delivers a verdict, and ends when the delivery is over.
    Deliver(DispatchOutcome<J>, Owed<J::Error>),
    /// Ends.
    Finish(Result<JobOutcome<()>, JobFailure<J::Error>>),
}

/// Whether `next` is what a run does with its outcome: a success and a rejection are
/// delivered; so is a failure that ends the job, and no other.
pub open spec fn outcome_settled<J: Job>(
    ctx: JobContext,
    outcome: Result<JobOutcome<J::Output>, JobFailure<J::Error>>,
    detail: String,
    next: Outcome<J>,
) -> bool {
    let attempts = (ctx.attempt + 1) as u32;
    let job_id = ctx.job_id;
    match outcome {
        Ok(JobOutcome::Done(output)) => next matches Outcome::Deliver(verdict, owed)
            && owed is Success && verdict.confirms(job_id, output, attempts),
        Ok(JobOutcome::Defer(delay)) => next == Outcome::<J>::Finish(Ok(JobOutcome::Defer(delay))),
        Err(JobFailure::Terminal(error)) => next matches Outcome::Deliver(verdict, owed) && owed
            == Owed::Rejection(error) && exists|copy: J::Error| #[trigger]
            cloned(error, copy) && verdict.fails(job_id, DispatchFailure::Rejected(copy), attempts),
        Err(JobFailure::Transient(error)) => if ctx.last() {
            next matches Outcome::Deliver(verdict, owed) && owed == Owed::Failure(error)
                && verdict.fails(
                job_id,
                DispatchFailure::DeadLettered { reason: DeadReason::RetriesExhausted, detail },
                attempts,
            )
        } else {
            next == Outcome::<J>::Finish(Err(JobFailure::Transient(error)))
        },
    }
}

/// What a run does with its outcome; `detail` is the text of a failure's causes.
pub fn after_outcome<J: Job>(
    ctx: &JobContext,
    outcome: Result<JobOutcome<J::Output>, JobFailure<J::Error>>,
    detail: String,
) -> (next: Outcome<J>)
    requires
        ctx.attempt < u32::MAX,
    ensures
        outcome_settled(*ctx, outcome, detail, next),
{
    let attempts: u32 = ctx.attempt + 1;
    match outcome {
        Ok(JobOutcome::Done(output)) => Outcome::Deliver(
            DispatchOutcome::confirmed(ctx.job_id, output, attempts),
            Owed::Success,
        ),
        Ok(JobOutcome::Defer(delay)) => Outcome::Finish(Ok(JobOutcome::Defer(delay))),
        Err(JobFailure::Terminal(error)) => {
            let copy = error.clone();
            assert(cloned(error, copy));
            Outcome::Deliver(
                DispatchOutcome::failed(ctx.job_id, DispatchFailure::Rejected(copy), attempts),
                Owed::Rejection(error),
            )
        },
        Err(JobFailure::Transient(error)) => {
            if ctx.is_final_attempt() {
                Outcome::Deliver(
                    DispatchOutcome::failed(
                        ctx.job_id,
                        DispatchFailure::DeadLettered {
                            reason: DeadReason::RetriesExhausted,
                            detail,
                        },
                        attempts,
                    ),
                    Owed::Failure(error),
                )
            } else {
                Outcome::Finish(Err(JobFailure::Transient(error)))
            }
        },
    }
}

/// How a run ends once its verdict was delivered or not. A verdict that did not arrive
/// puts the job off without counting an attempt, so that it is delivered again; only a
/// job that ends anyway is not put off.
pub open spec fn run_ended<Error>(
    policy: DeliveryPolicy,
    owed: Owed<Error>,
    delivered: Result<(), OriginDeliveryError>,
) -> Result<JobOutcome<()>, JobFailure<Error>> {
    match (owed, delivered) {
        (Owed::Failure(error), _) => Err(JobFailure::Transient(error)),
        (_, Err(error)) => Ok(JobOutcome::Defer(deferral(policy, error))),
        (Owed::Success, Ok(())) => Ok(JobOutcome::Done(())),
        (Owed::Rejection(error), Ok(())) => Err(JobFailure::Terminal(error)),
    }
}

/// How a run ends once its verdict was delivered or not.
pub fn after_delivery<Error>(
    ctx: &JobContext,
    owed: Owed<Error>,
    delivered: Result<(), OriginDeliveryError>,
) -> (result: Result<JobOutcome<()>, JobFailure<Error>>)
    ensures
        result == run_ended(ctx.delivery, owed, delivered),
{
    match (owed, delivered) {
        (Owed::Failure(error), _) => Err(JobFailure::Transient(error)),
        (_, Err(error)) => Ok(JobOutcome::Defer(delivery_deferral(ctx, &error))),
        (Owed::Success, Ok(())) => Ok(JobOutcome::Done(())),
        (Owed::Rejection(error), Ok(())) => Err(JobFailure::Terminal(error)),
    }
}

/// What a run of a job does next, and what it knows by then.
pub enum RunStep<Message, Error> {
    /// Ask the outside about an earlier run.
    Reconcile,
    /// Submit to the outside.
    Submit,
    /// Deliver to the entity, which the run then owes its end.
    Deliver(Message, Owed<Error>),
    /// End.
    End(Result<JobOutcome<()>, JobFailure<Error>>),
}

/// The step with which a run begins: only the first run ever submits without asking.
pub fn first_step<Message, Error>(ctx: &JobContext) -> (step: RunStep<Message, Error>)
    ensures
        step == if ctx.first() {
            RunStep::<Message, Error>::Submit
        } else {
            RunStep::Reconcile
        },
{
    match route(ctx) {
        Route::Submit => RunStep::Submit,
        Route::Reconcile => RunStep::Reconcile,
    }
}

/// The step by which a run goes on with its outcome.
pub open spec fn outcome_step<J: Job>(next: Outcome<J>) -> RunStep<DispatchOutcome<J>, J::Error> {
    match next {
        Outcome::Deliver(verdict, owed) => RunStep::Deliver(verdict, owed),
        Outcome::Finish(result) => RunStep::End(result),
    }
}

/// Whether `step` is how a run goes on with its outcome.
pub open spec fn submitted_step<J: Job>(
    ctx: JobContext,
    outcome: Result<JobOutcome<J::Output>, JobFailure<J::Error>>,
    detail: String,
    step: RunStep<DispatchOutcome<J>, J::Error>,
) -> bool {
    exists|next: Outcome<J>| #[trigger]
        outcome_settled(ctx, outcome, detail, next) && step == outcome_step(next)
}

/// Whether `step` is how a run goes on once it knows about an earlier one.
pub open spec fn reconciled_step<J: Job>(
    ctx: JobContext,
    result: Result<Reconciliation<J::Output>, JobFailure<J::Error>>,
    detail: String,
    step: RunStep<DispatchOutcome<J>, J::Error>,
) -> bool {
    match result {
        Ok(Reconciliation::NotSubmitted) => step is Submit,
        Ok(Reconciliation::Indeterminate(delay)) => step == RunStep::<
            DispatchOutcome<J>,
            J::Error,
        >::End(Ok(JobOutcome::Defer(delay))),
        Ok(Reconciliation::Settled(output)) => submitted_step(
            ctx,
            Ok(JobOutcome::Done(output)),
            detail,
            step,
        ),
        Err(failure) => submitted_step(ctx, Err(failure), detail, step),
    }
}

/// How a run goes on once the outside was asked to do the job.
pub fn after_submitting<J: Job>(
    ctx: &JobContext,
    outcome: Result<JobOutcome<J::Output>, JobFailure<J::Error>>,
    detail: String,
) -> (step: RunStep<DispatchOutcome<J>, J::Error>)
    requires
        ctx.attempt < u32::MAX,
    ensures
        submitted_step(*ctx, outcome, detail, step),
{
    let next = after_outcome::<J>(ctx, outcome, detail);
    assert(outcome_settled(*ctx, outcome, detail, next));
    match next {
        Outcome::Deliver(verdict, owed) => RunStep::Deliver(verdict, owed),
        Outcome::Finish(result) => RunStep::End(result),
    }
}

/// How a run goes on once it knows about an earlier one.
pub fn after_reconciling<J: Job>(
    ctx: &JobContext,
    result: Result<Reconciliation<J::Output>, JobFailure<J::Error>>,
    detail: String,
) -> (step: RunStep<DispatchOutcome<J>, J::Error>)
    requires
        ctx.attempt < u32::MAX || result matches Ok(Reconciliation::NotSubmitted)
            || result matches Ok(Reconciliation::Indeterminate(_)),
    ensures
        reconciled_step(*ctx, result, detail, step),
{
    match after_reconcile(result) {
        Reconciled::Submit => RunStep::Submit,
        Reconciled::Defer(delay) => RunStep::End(Ok(JobOutcome::Defer(delay))),
        Reconciled::Outcome(outcome) => after_submitting::<J>(ctx, outcome, detail),
    }
}

/// How a run goes on once its verdict was delivered or not: it ends.
pub fn after_delivering<J: Job>(
    ctx: &JobContext,
    owed: Owed<J::Error>,
    delivered: Result<(), OriginDeliveryError>,
) -> (step: RunStep<DispatchOutcome<J>, J::Error>)
    ensures
        step == RunStep::<DispatchOutcome<J>, J::Error>::End(
            run_ended(ctx.delivery, owed, delivered),
        ),
{
    RunStep::End(after_delivery(ctx, owed, delivered))
}

/// A run submits at most once, and only where nothing can have arrived before: it is the
/// first run ever, or the outside said that nothing arrived. What follows on a submission
/// is neither another one nor another question.
pub proof fn law_runs_submit_only_what_never_arrived<J: Job>(
    ctx: JobContext,
    result: Result<Reconciliation<J::Output>, JobFailure<J::Error>>,
    outcome: Result<JobOutcome<J::Output>, JobFailure<J::Error>>,
    detail: String,
    step: RunStep<DispatchOutcome<J>, J::Error>,
)
    ensures
        reconciled_step(ctx, result, detail, step) && step is Submit ==> (result matches Ok(known)
            && known is NotSubmitted),
        reconciled_step(ctx, result, detail, step) ==> !(step is Reconcile),
        submitted_step(ctx, outcome, detail, step) ==> !(step is Submit || step is Reconcile),
{
}

/// A run that knows its outcome delivers it before it ends, unless the job is to run
/// again anyway.
pub proof fn law_outcomes_are_delivered_before_the_end<J: Job>(
    ctx: JobContext,
    outcome: Result<JobOutcome<J::Output>, JobFailure<J::Error>>,
    detail: String,
    step: RunStep<DispatchOutcome<J>, J::Error>,
)
    requires
        submitted_step(ctx, outcome, detail, step),
    ensures
        step matches RunStep::End(result) ==> {
            ||| result matches Ok(JobOutcome::Defer(_))
            ||| result matches Err(JobFailure::Transient(_)) && !ctx.last()
        },
        step matches RunStep::Deliver(verdict, _) ==> verdict@.job() == ctx.job_id,
{
}

/// The event that settles a job can follow on the state that it was settled in, and
/// leaves a state that absorbs the verdict from then on.
pub proof fn law_settlements_apply_and_are_absorbed<J: Job>(
    state: DispatchedJob<J>,
    verdict: Verdict<J>,
    event: DispatchEvent<J>,
    after: DispatchedJob<J>,
)
    requires
        settlement(state, verdict) == Ok::<_, DispatchRefused>(seq![event]),
    ensures
        dispatch_applies(state, event),
        dispatch_evolved(state, event, after) ==> settlement(after, verdict) == Ok::<
            _,
            DispatchRefused,
        >(Seq::<DispatchEvent<J>>::empty()),
{
    let events = settlement(state, verdict)->Ok_0;
    assert(events.len() == 1 && events[0] == event);
    assert(state is InFlight);
    assert(events[0] == verdict.event());
}

/// A state is confirmed only by the verdict on the job that ran.
pub proof fn law_confirmed_only_by_the_running_job<J: Job>(
    before: DispatchedJob<J>,
    event: DispatchEvent<J>,
    after: DispatchedJob<J>,
)
    requires
        dispatch_evolved(before, event, after),
        after is Confirmed,
    ensures
        before matches DispatchedJob::InFlight { job_id } && job_id
            == after->Confirmed_0@.job_id,
        event matches DispatchEvent::Confirmed(settled) && settled_copied(
            settled,
            after->Confirmed_0,
        ),
{
}

/// At most one job runs: while one does, no other is dispatched, neither by the guard
/// nor by an event.
pub proof fn law_one_job_at_a_time<J: Job>(state: DispatchedJob<J>, event: DispatchEvent<J>)
    requires
        state is InFlight,
        event is Dispatched,
    ensures
        dispatch_refusal(state) == Some(DispatchRefused::InFlight),
        !dispatch_applies(state, event),
{
}

/// What was dispatched by leave of the guard can be recorded.
pub proof fn law_guarded_dispatches_apply<J: Job>(state: DispatchedJob<J>, event: DispatchEvent<J>)
    requires
        dispatch_refusal(state) is None,
        event is Dispatched,
    ensures
        dispatch_applies(state, event),
{
}

/// An event leads somewhere exactly where it can follow.
pub proof fn law_events_lead_where_they_apply<J: Job>(
    before: DispatchedJob<J>,
    event: DispatchEvent<J>,
    after: DispatchedJob<J>,
)
    requires
        dispatch_evolved(before, event, after),
    ensures
        dispatch_applies(before, event),
{
}

/// A job ends with success or as rejected only once its verdict was delivered; a verdict
/// that was not delivered never counts as a failed attempt.
pub proof fn law_verdicts_arrive_before_a_job_ends<Error>(
    policy: DeliveryPolicy,
    owed: Owed<Error>,
    delivered: Result<(), OriginDeliveryError>,
)
    requires
        !(owed is Failure),
    ensures
        ({
            let ended = run_ended(policy, owed, delivered);
            &&& delivered is Err ==> ended == Ok::<_, JobFailure<Error>>(
                JobOutcome::<()>::Defer(deferral(policy, delivered->Err_0)),
            )
            &&& ended matches Ok(JobOutcome::Done(_)) ==> delivered is Ok
            &&& ended is Err ==> delivered is Ok
            &&& !(ended matches Err(JobFailure::Transient(_)))
        }),
{
}

/// A job is dispatched exactly where nothing is under way and nothing was confirmed: the
/// first one, or another after a failure.
pub proof fn law_jobs_are_dispatched_when_nothing_is_under_way<J: Job>(
    state: DispatchedJob<J>,
    refusal: Option<DispatchRefused>,
)
    requires
        refusal == dispatch_refusal(state),
    ensures
        refusal is None <==> state is Idle || state is Failed,
        state is InFlight ==> refusal == Some(DispatchRefused::InFlight),
        state is Confirmed ==> refusal == Some(DispatchRefused::AlreadyConfirmed),
{
}

/// A verdict is recorded once, by the state that waits for the job that it is on, and as
/// it was delivered. One that was recorded before changes nothing; any other is refused:
/// the one on another job, the one on a job that ended otherwise, and one that nobody
/// waits for.
pub proof fn law_verdicts_are_recorded_once<J: Job>(
    state: DispatchedJob<J>,
    outcome: DispatchOutcome<J>,
    result: Result<Vec<DispatchEvent<J>>, DispatchRefused>,
)
    requires
        call_ensures(DispatchedJob::<J>::settle, (&state, outcome), result),
    ensures
        match (state, outcome@, result) {
            (DispatchedJob::InFlight { job_id }, Verdict::Confirmed(settled), Ok(events)) => job_id
                == settled@.job_id && events@.len() == 1 && events@[0] == DispatchEvent::<
                J,
            >::Confirmed(settled),
            (DispatchedJob::InFlight { job_id }, Verdict::Failed(settled), Ok(events)) => job_id
                == settled@.job_id && events@.len() == 1 && events@[0] == DispatchEvent::<J>::Failed(
                settled,
            ),
            (DispatchedJob::Confirmed(known), Verdict::Confirmed(settled), Ok(events)) => {
                known@.job_id == settled@.job_id && events@.len() == 0
            },
            (DispatchedJob::Failed(known), Verdict::Failed(settled), Ok(events)) => known@.job_id
                == settled@.job_id && events@.len() == 0,
            (_, _, Ok(_)) => false,
            (DispatchedJob::InFlight { job_id }, Verdict::Confirmed(settled), Err(refused)) => {
                job_id != settled@.job_id && refused is OutcomeMismatch
            },
            (DispatchedJob::InFlight { job_id }, Verdict::Failed(settled), Err(refused)) => job_id
                != settled@.job_id && refused is OutcomeMismatch,
            (DispatchedJob::Confirmed(known), Verdict::Confirmed(settled), Err(refused)) => {
                known@.job_id != settled@.job_id && refused is OutcomeMismatch
            },
            (DispatchedJob::Failed(known), Verdict::Failed(settled), Err(refused)) => known@.job_id
                != settled@.job_id && refused is OutcomeMismatch,
            (_, _, Err(refused)) => refused is OutcomeMismatch,
        },
{
}

/// What events make of a dispatched job: a dispatch is under way under its own identity,
/// and the verdict on it, and on no other, ends it with what was settled. Anything else
/// cannot follow.
pub proof fn law_events_move_dispatches_on<J: Job>(
    before: DispatchedJob<J>,
    event: DispatchEvent<J>,
    result: Result<DispatchedJob<J>, DispatchReplay>,
)
    requires
        call_ensures(DispatchedJob::<J>::evolve, (&before, &event), result),
    ensures
        result is Ok <==> match event {
            DispatchEvent::Dispatched { .. } => before is Idle || before is Failed,
            DispatchEvent::Confirmed(settled) => before == (DispatchedJob::<J>::InFlight {
                job_id: settled@.job_id,
            }),
            DispatchEvent::Failed(settled) => before == (DispatchedJob::<J>::InFlight {
                job_id: settled@.job_id,
            }),
        },
        result matches Ok(after) ==> match (event, after) {
            (
                DispatchEvent::Dispatched { job_id, .. },
                DispatchedJob::InFlight { job_id: under_way },
            ) => under_way == job_id,
            (DispatchEvent::Confirmed(settled), DispatchedJob::Confirmed(kept)) => kept@.job_id
                == settled@.job_id && kept@.attempts == settled@.attempts && cloned(
                settled@.output,
                kept@.output,
            ),
            (DispatchEvent::Failed(settled), DispatchedJob::Failed(kept)) => kept@.job_id
                == settled@.job_id && kept@.attempts == settled@.attempts && match (
                settled@.failure,
                kept@.failure,
            ) {
                (DispatchFailure::Rejected(error), DispatchFailure::Rejected(copy)) => cloned(
                    error,
                    copy,
                ),
                (
                    DispatchFailure::DeadLettered { reason, detail },
                    DispatchFailure::DeadLettered { reason: kept_reason, detail: kept_detail },
                ) => reason == kept_reason && detail == kept_detail,
                _ => false,
            },
            _ => false,
        },
{
}

/// A kick-off enqueues the job under the identity that its event records, at once and as
/// the job gives itself.
pub proof fn law_kickoffs_enqueue_what_they_record<J: Job>(
    job: J,
    dispatch: JobDispatch<J::Origin>,
) where <J::Origin as EventSourced>::Event: From<DispatchEvent<J>>
    requires
        kicked(job, dispatch),
    ensures
        dispatch@.pending.kind.0@ == J::KIND@,
        dispatch@.pending.delay is None,
        call_ensures(J::encode, (&job,), dispatch@.pending.payload),
        exists|copy: J| #[trigger]
            cloned(job, copy) && call_ensures(
                <<J::Origin as EventSourced>::Event as From<DispatchEvent<J>>>::from,
                (DispatchEvent::Dispatched { job_id: dispatch@.pending.job_id, job: copy },),
                dispatch@.event,
            ),
{
}

/// The first run of a job goes straight to the outside; every later one asks first, since
/// an earlier one may have arrived.
pub proof fn law_later_runs_ask_first<Message, Error>(
    ctx: JobContext,
    way: Route,
    step: RunStep<Message, Error>,
)
    requires
        call_ensures(route, (&ctx,), way),
        call_ensures(first_step::<Message, Error>, (&ctx,), step),
    ensures
        way is Submit <==> ctx.claim_seq == 2,
        step is Submit <==> ctx.claim_seq == 2,
        step is Reconcile <==> ctx.claim_seq != 2,
{
}

/// What a run does once it knows about an earlier one: it submits where nothing arrived,
/// takes over what was settled or failed, and waits as long as it is told where nothing is
/// known yet.
pub proof fn law_earlier_runs_are_taken_over<Output, Error>(
    result: Result<Reconciliation<Output>, JobFailure<Error>>,
    next: Reconciled<Output, Error>,
)
    requires
        call_ensures(after_reconcile::<Output, Error>, (result,), next),
    ensures
        match (result, next) {
            (Ok(Reconciliation::Settled(output)), Reconciled::Outcome(Ok(JobOutcome::Done(own))))
            => own == output,
            (Ok(Reconciliation::NotSubmitted), Reconciled::Submit) => true,
            (Ok(Reconciliation::Indeterminate(delay)), Reconciled::Defer(wait)) => wait == delay,
            (Err(failure), Reconciled::Outcome(Err(own))) => own == failure,
            _ => false,
        },
{
}

/// A run tells its entity of everything that ends the job: a success with its output, a
/// rejection with its error, and a failure that uses the budget up as a job that was given
/// up. It counts itself among the attempts. A job that is to run again is not told of, and
/// what the run then reports is what it was told.
pub proof fn law_entities_are_told_of_the_end<J: Job>(
    ctx: JobContext,
    outcome: Result<JobOutcome<J::Output>, JobFailure<J::Error>>,
    detail: String,
    next: Outcome<J>,
)
    requires
        ctx.attempt < u32::MAX,
        call_ensures(after_outcome::<J>, (&ctx, outcome, detail), next),
    ensures
        match (outcome, next) {
            (Ok(JobOutcome::Done(output)), Outcome::Deliver(told, owed)) => {
                &&& owed is Success
                &&& told@ matches Verdict::Confirmed(settled)
                &&& settled@.job_id == ctx.job_id
                &&& settled@.output == output
                &&& settled@.attempts == ctx.attempt + 1
            },
            (Ok(JobOutcome::Defer(delay)), Outcome::Finish(Ok(JobOutcome::Defer(wait)))) => wait
                == delay,
            (Err(JobFailure::Terminal(error)), Outcome::Deliver(told, owed)) => {
                &&& owed == Owed::Rejection(error)
                &&& told@ matches Verdict::Failed(settled)
                &&& settled@.job_id == ctx.job_id
                &&& settled@.attempts == ctx.attempt + 1
                &&& settled@.failure matches DispatchFailure::Rejected(copy)
                &&& cloned(error, copy)
            },
            (Err(JobFailure::Transient(error)), Outcome::Deliver(told, owed)) => {
                &&& ctx.max_attempts > 0 && ctx.attempt + 1 >= ctx.max_attempts
                &&& owed == Owed::Failure(error)
                &&& told@ matches Verdict::Failed(settled)
                &&& settled@.job_id == ctx.job_id
                &&& settled@.attempts == ctx.attempt + 1
                &&& settled@.failure == DispatchFailure::<J::Error>::DeadLettered {
                    reason: DeadReason::RetriesExhausted,
                    detail,
                }
            },
            (
                Err(JobFailure::Transient(error)),
                Outcome::Finish(Err(JobFailure::Transient(own))),
            ) => own == error && (ctx.max_attempts == 0 || ctx.attempt + 1 < ctx.max_attempts),
            _ => false,
        },
{
}

/// How a run ends: as it owes where its verdict arrived. Where it did not, the job is put
/// off, shortly if the way failed and for longer if the entity refused, and no attempt is
/// counted; only a job that ends anyway ends all the same.
pub proof fn law_undelivered_verdicts_put_the_job_off<Error>(
    ctx: JobContext,
    owed: Owed<Error>,
    delivered: Result<(), OriginDeliveryError>,
    result: Result<JobOutcome<()>, JobFailure<Error>>,
)
    requires
        call_ensures(after_delivery::<Error>, (&ctx, owed, delivered), result),
    ensures
        match (owed, delivered, result) {
            (Owed::Failure(error), _, Err(JobFailure::Transient(own))) => own == error,
            (Owed::Success, Ok(()), Ok(JobOutcome::Done(_))) => true,
            (Owed::Rejection(error), Ok(()), Err(JobFailure::Terminal(own))) => own == error,
            (Owed::Failure(_), _, _) => false,
            (_, Err(OriginDeliveryError::Transport(_)), Ok(JobOutcome::Defer(wait))) => wait
                == ctx.delivery.retry_delay,
            (_, Err(OriginDeliveryError::Refused(_)), Ok(JobOutcome::Defer(wait))) => wait
                == ctx.delivery.refused_backoff,
            _ => false,
        },
{
}

/// An entity's own refusal is told from every failure on the way.
pub proof fn law_refusals_are_told_from_failures(
    failure: SendFailure,
    message: String,
    error: OriginDeliveryError,
)
    requires
        call_ensures(delivery_error, (failure, message), error),
    ensures
        match error {
            OriginDeliveryError::Refused(said) => failure is User && said == message,
            OriginDeliveryError::Transport(said) => !(failure is User) && said == message,
        },
{
}

/// What an effect records and enqueues: events and nothing else, or one job with the event
/// that records it.
pub proof fn law_effects_are_events_or_one_job<Entity: EventSourced>(effect: Effect<Entity>)
    ensures
        match effect {
            Effect::Events(events) => effect.events() == events@ && effect.pending() is None,
            Effect::Dispatch(dispatch) => effect.events().len() == 1 && effect.events()[0]
                == dispatch@.event && effect.pending() == Some(dispatch@.pending),
        },
{
}

/// A handler's value stands for what it says: an event for itself alone, a list for its
/// events in their order, an error for a refusal, and a guarded dispatch for itself.
pub proof fn law_values_stand_for_what_they_say<Entity: EventSourced>(
    event: Entity::Event,
    of_event: Result<Effect<Entity>, Entity::Error>,
    events: Vec<Entity::Event>,
    of_events: Result<Effect<Entity>, Entity::Error>,
    refusal: Entity::Error,
    of_refusal: Result<Effect<Entity>, Entity::Error>,
    dispatch: JobDispatch<Entity>,
    of_dispatch: Result<Effect<Entity>, Entity::Error>,
    nothing: Result<Effect<Entity>, Entity::Error>,
)
    requires
        <Entity::Event as Fx<Entity, fx_marker::Event>>::stands_for(event, of_event),
        <Vec<Entity::Event> as Fx<Entity, fx_marker::Events>>::stands_for(events, of_events),
        <Entity::Error as Fx<Entity, fx_marker::Failure>>::stands_for(refusal, of_refusal),
        <JobDispatch<Entity> as Fx<Entity, fx_marker::Guarded>>::stands_for(dispatch, of_dispatch),
        call_ensures(uneventful::<Entity>, (), nothing),
    ensures
        of_event matches Ok(Effect::Events(recorded)) && recorded@.len() == 1 && recorded@[0]
            == event,
        of_events matches Ok(Effect::Events(recorded)) && recorded@ == events@,
        of_refusal matches Err(error) && error == refusal,
        of_dispatch matches Ok(Effect::Dispatch(kept)) && kept@ == dispatch@,
        nothing matches Ok(Effect::Events(recorded)) && recorded@.len() == 0,
{
}

/// The events that settle a job are recorded one for one and in their order, each as the
/// entity records it.
pub proof fn law_settlements_are_recorded_one_for_one<J: Job>(
    from: Seq<DispatchEvent<J>>,
    events: Seq<<J::Origin as EventSourced>::Event>,
    index: int,
) where <J::Origin as EventSourced>::Event: From<DispatchEvent<J>>
    requires
        wrapped_events(from, events),
        0 <= index < from.len(),
    ensures
        events.len() == from.len(),
        call_ensures(
            <<J::Origin as EventSourced>::Event as From<DispatchEvent<J>>>::from,
            (from[index],),
            events[index],
        ),
{
    assert(wrapped_event(from[index], events[index]));
}

/// A dispatch by leave of the guard kicks its job off, and one without is refused with the
/// guard's reason; a first event counts as one on a job that nobody dispatched yet.
pub proof fn law_dispatches_ask_the_guard<J: Job, Index>(
    state: DispatchedJob<J>,
    job: J,
    result: Result<JobDispatch<J::Origin>, DispatchRefused>,
    event: DispatchEvent<J>,
    first: Result<DispatchedJob<J>, DispatchReplay>,
) where
    <J::Origin as EventSourced>::Event: From<DispatchEvent<J>>,
    <J::Origin as EventSourced>::Jobs: Contains<J, Index>,

    requires
        call_ensures(DispatchedJob::<J>::dispatch::<Index>, (&state, job), result),
        call_ensures(DispatchedJob::<J>::originate, (&event,), first),
    ensures
        match result {
            Ok(dispatch) => (state is Idle || state is Failed) && kicked(job, dispatch),
            Err(DispatchRefused::InFlight) => state is InFlight,
            Err(DispatchRefused::AlreadyConfirmed) => state is Confirmed,
            Err(_) => false,
        },
        first is Ok <==> event is Dispatched,
        match (event, first) {
            (
                DispatchEvent::Dispatched { job_id, .. },
                Ok(DispatchedJob::InFlight { job_id: under_way }),
            ) => under_way == job_id,
            (_, Ok(_)) => false,
            _ => true,
        },
{
}

/// How a run goes on follows from what came back: it delivers what it settled, and else
/// ends with it; where an earlier run was asked about, what became of it counts as its own.
pub proof fn law_runs_go_on_with_what_came_back<J: Job>(
    ctx: JobContext,
    outcome: Result<JobOutcome<J::Output>, JobFailure<J::Error>>,
    known: Result<Reconciliation<J::Output>, JobFailure<J::Error>>,
    detail: String,
    submitted: RunStep<DispatchOutcome<J>, J::Error>,
    reconciled: RunStep<DispatchOutcome<J>, J::Error>,
)
    requires
        ctx.attempt < u32::MAX,
        call_ensures(after_submitting::<J>, (&ctx, outcome, detail), submitted),
        call_ensures(after_reconciling::<J>, (&ctx, known, detail), reconciled),
    ensures
        match (outcome, submitted) {
            (Ok(JobOutcome::Done(output)), RunStep::Deliver(told, owed)) => owed is Success && (
            told@ matches Verdict::Confirmed(settled) && settled@.job_id == ctx.job_id
                && settled@.output == output && settled@.attempts == ctx.attempt + 1),
            (Ok(JobOutcome::Defer(delay)), RunStep::End(Ok(JobOutcome::Defer(wait)))) => wait
                == delay,
            (Err(JobFailure::Terminal(error)), RunStep::Deliver(told, owed)) => owed
                == Owed::Rejection(error) && told@ is Failed,
            (Err(JobFailure::Transient(error)), RunStep::Deliver(told, owed)) => owed
                == Owed::Failure(error) && told@ is Failed && ctx.max_attempts > 0 && ctx.attempt
                + 1 >= ctx.max_attempts,
            (Err(JobFailure::Transient(error)), RunStep::End(Err(JobFailure::Transient(own)))) => {
                own == error && (ctx.max_attempts == 0 || ctx.attempt + 1 < ctx.max_attempts)
            },
            _ => false,
        },
        match (known, reconciled) {
            (Ok(Reconciliation::NotSubmitted), RunStep::Submit) => true,
            (
                Ok(Reconciliation::Indeterminate(delay)),
                RunStep::End(Ok(JobOutcome::Defer(wait))),
            ) => wait == delay,
            (Ok(Reconciliation::Settled(output)), RunStep::Deliver(told, owed)) => owed is Success
                && (told@ matches Verdict::Confirmed(settled) && settled@.output == output),
            (Err(JobFailure::Terminal(error)), RunStep::Deliver(told, owed)) => owed
                == Owed::Rejection(error) && told@ is Failed,
            (Err(JobFailure::Transient(error)), RunStep::Deliver(told, owed)) => owed
                == Owed::Failure(error) && told@ is Failed,
            (Err(JobFailure::Transient(error)), RunStep::End(Err(JobFailure::Transient(own)))) => {
                own == error
            },
            _ => false,
        },
{
}

/// A copy of a dispatched job is of the same kind and on the same job.
pub proof fn law_copies_are_on_the_same_job<J: Job>(
    state: DispatchedJob<J>,
    copy: DispatchedJob<J>,
)
    requires
        dispatched_copied(state, copy),
    ensures
        match (state, copy) {
            (DispatchedJob::Idle, DispatchedJob::Idle) => true,
            (
                DispatchedJob::InFlight { job_id },
                DispatchedJob::InFlight { job_id: id_copy },
            ) => id_copy == job_id,
            (DispatchedJob::Confirmed(settled), DispatchedJob::Confirmed(kept)) => kept@.job_id
                == settled@.job_id && kept@.attempts == settled@.attempts,
            (DispatchedJob::Failed(settled), DispatchedJob::Failed(kept)) => kept@.job_id
                == settled@.job_id && kept@.attempts == settled@.attempts,
            _ => false,
        },
{
}

} // verus!
