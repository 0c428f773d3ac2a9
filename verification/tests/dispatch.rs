//! Jobs that an entity dispatches.

use event_sorcery::dispatch::{
    after_delivering, after_delivery, after_outcome, after_reconcile, after_reconciling,
    after_submitting, delivery_deferral, delivery_error, first_step, fx, route, uneventful, Cons,
    DeliveryPolicy, DispatchEvent, DispatchFailure, DispatchOutcome, DispatchRefused,
    DispatchReplay, DispatchedJob, Effect, Job, Nil, OriginDeliveryError, Outcome, Owed,
    Reconciled, Reconciliation, Route, RunStep, SendFailure, Settled, SettledFailure, Verdict,
};
use event_sorcery::entity::EventSourced;
use event_sorcery::job::{
    DeadReason, JobContext, JobFailure, JobId, JobKind, JobOutcome, Label,
};
use event_sorcery::lifecycle::{Lifecycle, LifecycleError};
use event_sorcery::time::Delay;
use serde_json::Value;

#[derive(Debug, Clone, PartialEq, Eq)]
struct PlaceOrder {
    origin: u64,
    amount: u32,
}

#[derive(Debug, Clone, PartialEq, Eq)]
struct OrderRejected {
    reason: String,
}

/// An entity with one dispatched job.
#[derive(Debug, Clone, PartialEq)]
struct Desk {
    order: DispatchedJob<PlaceOrder>,
}

#[derive(Debug, Clone, PartialEq)]
enum DeskEvent {
    Dispatch(DispatchEvent<PlaceOrder>),
}

impl From<DispatchEvent<PlaceOrder>> for DeskEvent {
    fn from(event: DispatchEvent<PlaceOrder>) -> Self {
        Self::Dispatch(event)
    }
}

#[derive(Debug, Clone)]
enum DeskCommand {
    Place(PlaceOrder),
    Settle(DispatchOutcome<PlaceOrder>),
}

#[derive(Debug, Clone, PartialEq, Eq)]
enum DeskError {
    Refused(DispatchRefused),
}

impl From<DispatchRefused> for DeskError {
    fn from(refused: DispatchRefused) -> Self {
        Self::Refused(refused)
    }
}

impl EventSourced for Desk {
    type Id = u64;
    type Error = DeskError;
    type Command = DeskCommand;
    type Event = DeskEvent;
    type Jobs = Cons<PlaceOrder, Nil>;

    const SCHEMA_VERSION: u64 = 1;
    const AGGREGATE_TYPE: &'static str = "Desk";

    fn originate(event: &DeskEvent) -> Option<Self> {
        let DeskEvent::Dispatch(dispatch_event) = event;
        let order = DispatchedJob::originate(dispatch_event).ok()?;
        Some(Self { order })
    }

    fn evolve(entity: &Self, event: &DeskEvent) -> Result<Option<Self>, DeskError> {
        let DeskEvent::Dispatch(dispatch_event) = event;
        Ok(entity
            .order
            .evolve(dispatch_event)
            .ok()
            .map(|order| Self { order }))
    }

    fn initialize(command: DeskCommand) -> Result<Effect<Self>, DeskError> {
        match command {
            DeskCommand::Place(job) => fx(job),
            DeskCommand::Settle(_) => fx(DeskError::Refused(DispatchRefused::OutcomeMismatch)),
        }
    }

    fn transition(&self, command: DeskCommand) -> Result<Effect<Self>, DeskError> {
        match command {
            DeskCommand::Place(job) => fx(self.order.dispatch(job)?),
            DeskCommand::Settle(outcome) => fx(self.order.settle(outcome)?),
        }
    }
}

impl Job for PlaceOrder {
    type Input = ();
    type Output = String;
    type Error = OrderRejected;
    type Origin = Desk;

    const WORKER_NAME: &'static str = "place-order";
    const KIND: &'static str = "place-order";

    fn label(&self) -> Label {
        Label::new(format!("place-order:{}", self.amount))
    }

    fn origin_id(&self) -> u64 {
        self.origin
    }

    fn encode(&self) -> Result<Value, String> {
        Ok(Value::from(self.amount))
    }
}

fn place() -> PlaceOrder {
    PlaceOrder {
        origin: 7,
        amount: 100,
    }
}

fn confirmed(job_id: JobId) -> DispatchOutcome<PlaceOrder> {
    DispatchOutcome::simulated_confirmed(job_id, "filled".to_string(), 1)
}

#[test]
fn dispatch_from_idle_pairs_the_event_with_the_enqueue() {
    let dispatch = DispatchedJob::<PlaceOrder>::Idle.dispatch(place()).unwrap();

    let (event, pending) = dispatch.into_parts();
    let DeskEvent::Dispatch(DispatchEvent::Dispatched { job_id, job }) = &event else {
        panic!("expected a Dispatched event");
    };
    assert_eq!(pending.job_id, *job_id);
    assert_eq!(*job, place());
}

#[test]
fn dispatch_while_in_flight_is_refused() {
    let state = DispatchedJob::<PlaceOrder>::InFlight {
        job_id: JobId::new(),
    };
    let Err(refused) = state.dispatch(place()) else {
        panic!("expected the in-flight guard to refuse");
    };
    assert_eq!(refused, DispatchRefused::InFlight);
}

#[test]
fn dispatch_after_confirmation_is_refused() {
    let state = DispatchedJob::<PlaceOrder>::Confirmed(Settled::simulated(
        JobId::new(),
        "filled".to_string(),
        1,
    ));
    let Err(refused) = state.dispatch(place()) else {
        panic!("expected the confirmed guard to refuse");
    };
    assert_eq!(refused, DispatchRefused::AlreadyConfirmed);
}

#[test]
fn dispatch_after_failure_starts_a_fresh_job() {
    let state = DispatchedJob::<PlaceOrder>::Failed(SettledFailure::simulated(
        JobId::new(),
        DispatchFailure::Rejected(OrderRejected {
            reason: "no funds".to_string(),
        }),
        1,
    ));
    let dispatch = state.dispatch(place()).unwrap();
    assert!(matches!(
        dispatch.into_parts().0,
        DeskEvent::Dispatch(DispatchEvent::Dispatched { .. })
    ));
}

#[test]
fn dispatch_matching_confirm_settles_and_evolves_to_confirmed() {
    let job_id = JobId::new();
    let state = DispatchedJob::<PlaceOrder>::InFlight { job_id };

    let events = state.settle(confirmed(job_id)).unwrap();
    let [event] = events.as_slice() else {
        panic!("expected exactly one settle event, got {events:?}");
    };

    let settled = state.evolve(event).unwrap();
    let DispatchedJob::Confirmed(settled) = settled else {
        panic!("expected Confirmed, got {settled:?}");
    };
    assert_eq!(settled.job_id(), job_id);
    assert_eq!(settled.output(), "filled");
    assert_eq!(settled.attempts(), 1);
}

#[test]
fn duplicate_verdict_delivery_is_absorbed_without_events() {
    let job_id = JobId::new();
    let state = DispatchedJob::<PlaceOrder>::Confirmed(Settled::simulated(
        job_id,
        "filled".to_string(),
        1,
    ));

    assert_eq!(state.settle(confirmed(job_id)).unwrap(), vec![]);
}

#[test]
fn verdict_for_a_different_job_is_refused() {
    let state = DispatchedJob::<PlaceOrder>::InFlight {
        job_id: JobId::new(),
    };
    assert_eq!(
        state.settle(confirmed(JobId::new())).unwrap_err(),
        DispatchRefused::OutcomeMismatch
    );
}

#[test]
fn verdict_while_idle_is_refused() {
    assert_eq!(
        DispatchedJob::<PlaceOrder>::Idle
            .settle(confirmed(JobId::new()))
            .unwrap_err(),
        DispatchRefused::OutcomeMismatch
    );
}

#[test]
fn replaying_a_verdict_onto_idle_is_a_replay_error() {
    let event = DispatchEvent::<PlaceOrder>::Confirmed(Settled::simulated(
        JobId::new(),
        "filled".to_string(),
        1,
    ));
    assert_eq!(
        DispatchedJob::<PlaceOrder>::Idle.evolve(&event),
        Err(DispatchReplay)
    );
}

#[test]
fn delivery_deferral_uses_the_configured_delays() {
    let retry_delay = Delay::from_millis(250);
    let refused_backoff = Delay::from_secs(60);
    let ctx = JobContext {
        delivery: DeliveryPolicy {
            retry_delay,
            refused_backoff,
        },
        ..JobContext::default()
    };

    assert_eq!(
        delivery_deferral(&ctx, &OriginDeliveryError::Transport("down".into())),
        retry_delay
    );
    assert_eq!(
        delivery_deferral(&ctx, &OriginDeliveryError::Refused("mismatch".into())),
        refused_backoff
    );
}

#[test]
fn a_dispatched_job_settles_through_its_entity() {
    let mut desk = Lifecycle::<Desk>::default();
    let handled = desk.handle(DeskCommand::Place(place())).unwrap();
    let pending = handled.pending.unwrap();
    assert_eq!(pending.kind, JobKind::new("place-order"));
    assert_eq!(pending.payload, Ok(Value::from(100)));
    desk.apply_all(handled.events);

    let Lifecycle::Live(placed) = &desk else {
        panic!("expected a live desk");
    };
    let DispatchedJob::InFlight { job_id } = placed.order else {
        panic!("expected the job in flight, got {:?}", placed.order);
    };
    assert_eq!(job_id, pending.job_id);

    assert!(matches!(
        desk.handle(DeskCommand::Place(place())),
        Err(LifecycleError::Apply(DeskError::Refused(DispatchRefused::InFlight)))
    ));

    let handled = desk
        .handle(DeskCommand::Settle(confirmed(job_id)))
        .unwrap();
    assert!(handled.pending.is_none());
    desk.apply_all(handled.events);
    let handled = desk
        .handle(DeskCommand::Settle(confirmed(job_id)))
        .unwrap();
    assert!(handled.events.is_empty());
}

#[test]
fn handler_values_stand_for_whole_outcomes() {
    let event = || {
        DeskEvent::Dispatch(DispatchEvent::Dispatched {
            job_id: JobId(1),
            job: place(),
        })
    };

    assert!(matches!(
        fx::<Desk, _, _>(event()),
        Ok(Effect::Events(events)) if events == vec![event()]
    ));
    assert!(matches!(
        fx::<Desk, _, _>(vec![event(), event()]),
        Ok(Effect::Events(events)) if events.len() == 2
    ));
    assert!(matches!(
        fx::<Desk, _, _>([event()]),
        Ok(Effect::Events(events)) if events == vec![event()]
    ));
    let Ok(Effect::Dispatch(dispatch)) = fx::<Desk, _, _>(place()) else {
        panic!("a job is kicked off");
    };
    assert!(dispatch.into_parts().1.delay.is_none());
    assert!(matches!(
        fx::<Desk, _, _>(DeskError::Refused(DispatchRefused::InFlight)),
        Err(DeskError::Refused(DispatchRefused::InFlight))
    ));
    assert!(matches!(
        uneventful::<Desk>(),
        Ok(Effect::Events(events)) if events.is_empty()
    ));
}

fn ctx(claim_seq: i64, attempt: u32) -> JobContext {
    JobContext {
        claim_seq,
        attempt,
        max_attempts: 5,
        ..JobContext::default()
    }
}

fn rejected(reason: &str) -> OrderRejected {
    OrderRejected {
        reason: reason.to_string(),
    }
}

#[test]
fn only_the_first_run_submits_without_asking() {
    assert_eq!(route(&ctx(2, 0)), Route::Submit);
    assert_eq!(route(&ctx(3, 0)), Route::Reconcile);

    assert!(matches!(
        after_reconcile::<String, OrderRejected>(Ok(Reconciliation::NotSubmitted)),
        Reconciled::Submit
    ));
    assert!(matches!(
        after_reconcile::<String, OrderRejected>(Ok(Reconciliation::Indeterminate(
            Delay::from_secs(60)
        ))),
        Reconciled::Defer(Delay { secs: 60, nanos: 0 })
    ));
    assert!(matches!(
        after_reconcile::<String, OrderRejected>(Ok(Reconciliation::Settled(
            "reconciled".to_string()
        ))),
        Reconciled::Outcome(Ok(JobOutcome::Done(output))) if output == "reconciled"
    ));
    assert!(matches!(
        after_reconcile::<String, _>(Err(JobFailure::Transient(rejected("timeout")))),
        Reconciled::Outcome(Err(JobFailure::Transient(_)))
    ));
}

#[test]
fn verdicts_are_delivered_before_the_job_ends() {
    let done = Ok(JobOutcome::Done("submitted".to_string()));
    let Outcome::Deliver(verdict, owed) =
        after_outcome::<PlaceOrder>(&ctx(2, 0), done, String::new())
    else {
        panic!("a success must be delivered");
    };
    assert!(matches!(
        verdict.verdict(),
        Verdict::Confirmed(settled) if settled.output() == "submitted" && settled.attempts() == 1
    ));
    assert!(matches!(
        after_delivery(&ctx(2, 0), owed, Ok(())),
        Ok(JobOutcome::Done(()))
    ));

    let Outcome::Deliver(verdict, owed) = after_outcome::<PlaceOrder>(
        &ctx(2, 0),
        Err(JobFailure::Terminal(rejected("no funds"))),
        String::new(),
    ) else {
        panic!("a rejection must be delivered");
    };
    assert!(matches!(
        verdict.verdict(),
        Verdict::Failed(settled)
            if matches!(settled.failure(), DispatchFailure::Rejected(error) if error.reason == "no funds")
    ));
    assert!(matches!(
        after_delivery(&ctx(2, 0), owed, Ok(())),
        Err(JobFailure::Terminal(_))
    ));
}

#[test]
fn a_verdict_that_did_not_arrive_puts_the_job_off() {
    let retry_delay = Delay::from_millis(750);
    let ctx = JobContext {
        claim_seq: 2,
        delivery: DeliveryPolicy {
            retry_delay,
            ..DeliveryPolicy::default()
        },
        ..JobContext::default()
    };
    let down = || Err(OriginDeliveryError::Transport("origin unavailable".into()));

    assert!(matches!(
        after_delivery::<OrderRejected>(&ctx, Owed::Success, down()),
        Ok(JobOutcome::Defer(delay)) if delay == retry_delay
    ));
    assert!(matches!(
        after_delivery(&ctx, Owed::Rejection(rejected("no")), down()),
        Ok(JobOutcome::Defer(_))
    ));
    assert!(matches!(
        after_delivery(&ctx, Owed::Failure(rejected("no")), down()),
        Err(JobFailure::Transient(_))
    ));
    assert!(matches!(
        delivery_error(SendFailure::User, "mismatch".to_string()),
        OriginDeliveryError::Refused(_)
    ));
    for failure in [
        SendFailure::Conflict,
        SendFailure::Connection,
        SendFailure::Deserialization,
        SendFailure::Unexpected,
    ] {
        assert!(matches!(
            delivery_error(failure, "down".to_string()),
            OriginDeliveryError::Transport(_)
        ));
    }
}

#[test]
fn only_the_final_transient_attempt_is_delivered() {
    let transient = || Err(JobFailure::Transient(rejected("timeout")));

    assert!(matches!(
        after_outcome::<PlaceOrder>(&ctx(9, 1), transient(), String::new()),
        Outcome::Finish(Err(JobFailure::Transient(_)))
    ));
    let Outcome::Deliver(verdict, _) =
        after_outcome::<PlaceOrder>(&ctx(9, 4), transient(), "timeout".to_string())
    else {
        panic!("the final attempt must be delivered");
    };
    assert!(matches!(
        verdict.verdict(),
        Verdict::Failed(settled)
            if matches!(settled.failure(), DispatchFailure::DeadLettered {
                reason: DeadReason::RetriesExhausted, ..
            }) && settled.attempts() == 5
    ));
}

#[test]
fn failed_verdicts_settle_too() {
    let job_id = JobId::new();
    let failure = || DispatchFailure::Rejected(rejected("no funds"));
    let state = DispatchedJob::<PlaceOrder>::InFlight { job_id };

    let events = state
        .settle(DispatchOutcome::simulated_failed(job_id, failure(), 2))
        .unwrap();
    let after = state.evolve(&events[0]).unwrap();

    assert_eq!(
        after,
        DispatchedJob::Failed(SettledFailure::simulated(job_id, failure(), 2))
    );
    assert!(
        after
            .settle(DispatchOutcome::simulated_failed(job_id, failure(), 2))
            .unwrap()
            .is_empty()
    );
    assert_eq!(
        after
            .settle(DispatchOutcome::simulated_confirmed(job_id, "x".to_string(), 2))
            .unwrap_err(),
        DispatchRefused::OutcomeMismatch
    );
    assert_eq!(Settled::simulated(job_id, 1, 2).output(), &1);
    assert_eq!(DispatchedJob::<PlaceOrder>::default(), DispatchedJob::Idle);
}

#[test]
fn runs_go_from_step_to_step_until_they_end() {
    let first = first_step::<DispatchOutcome<PlaceOrder>, OrderRejected>(&ctx(2, 0));
    assert!(matches!(first, RunStep::Submit));
    let later = first_step::<DispatchOutcome<PlaceOrder>, OrderRejected>(&ctx(4, 0));
    assert!(matches!(later, RunStep::Reconcile));

    let step = after_submitting::<PlaceOrder>(
        &ctx(2, 0),
        Ok(JobOutcome::Done("filled".to_string())),
        String::new(),
    );
    let RunStep::Deliver(verdict, owed) = step else {
        panic!("expected a delivery");
    };
    assert!(matches!(
        verdict.verdict(),
        Verdict::Confirmed(settled) if settled.output() == "filled" && settled.attempts() == 1
    ));
    let step = after_delivering::<PlaceOrder>(&ctx(2, 0), owed, Ok(()));
    assert!(matches!(step, RunStep::End(Ok(JobOutcome::Done(())))));
}

#[test]
fn later_runs_submit_only_what_never_arrived() {
    let not_submitted =
        after_reconciling::<PlaceOrder>(&ctx(4, 0), Ok(Reconciliation::NotSubmitted), String::new());
    assert!(matches!(not_submitted, RunStep::Submit));

    let settled = after_reconciling::<PlaceOrder>(
        &ctx(4, 0),
        Ok(Reconciliation::Settled("filled".to_string())),
        String::new(),
    );
    assert!(matches!(settled, RunStep::Deliver(_, Owed::Success)));

    let delay = Delay::from_secs(9);
    let unknown = after_reconciling::<PlaceOrder>(
        &ctx(4, 0),
        Ok(Reconciliation::Indeterminate(delay)),
        String::new(),
    );
    assert!(matches!(
        unknown,
        RunStep::End(Ok(JobOutcome::Defer(wait))) if wait == delay
    ));

    let failed = after_reconciling::<PlaceOrder>(
        &ctx(4, 0),
        Err(JobFailure::Transient(rejected("timeout"))),
        "timeout".to_string(),
    );
    assert!(matches!(
        failed,
        RunStep::End(Err(JobFailure::Transient(error))) if error == rejected("timeout")
    ));
}

#[test]
fn stored_settlements_come_back_whole() {
    let settled = Settled::from_stored(JobId(7), "filled".to_string(), 3);
    assert_eq!((settled.job_id(), settled.attempts()), (JobId(7), 3));
    assert_eq!(settled.into_output(), "filled");

    let failure = || DispatchFailure::Rejected(rejected("no funds"));
    let settled = SettledFailure::from_stored(JobId(7), failure(), 3);
    assert_eq!((settled.job_id(), settled.attempts()), (JobId(7), 3));
    assert_eq!(settled.into_failure(), failure());
}
