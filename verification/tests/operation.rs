//! Operations that an entity drives through a job.

use event_sorcery::dispatch::{first_step, Effect, Nil, Owed, Reconciliation, RunStep};
use event_sorcery::entity::EventSourced;
use event_sorcery::job::{
    DeadReason, JobContext, JobFailure, JobId, JobKind, JobOutcome, Label, PendingJobs,
};
use event_sorcery::operation::{
    after_delivering, after_delivery, after_outcome, after_reconciling, after_submitting,
    Operation, OperationCommand, OperationEvent, OperationFailure, OperationJob, OperationRefused,
    OperationReplay, OriginDeliveryError, Outcome,
};
use event_sorcery::time::Delay;
use serde_json::Value;

#[derive(Debug, Clone, PartialEq)]
struct PlaceOrder {
    origin: u64,
    amount: u32,
}

#[derive(Debug, Clone, PartialEq, Eq)]
struct OrderRejected {
    reason: String,
}

#[derive(Debug, Clone, PartialEq)]
struct Desk;

impl EventSourced for Desk {
    type Id = u64;
    type Event = OperationEvent<PlaceOrder>;
    type Command = ();
    type Error = OrderRejected;
    type Jobs = Nil;

    const AGGREGATE_TYPE: &'static str = "Desk";
    const SCHEMA_VERSION: u64 = 1;

    fn originate(_event: &Self::Event) -> Option<Self> {
        Some(Self)
    }

    fn evolve(_entity: &Self, _event: &Self::Event) -> Result<Option<Self>, OrderRejected> {
        Ok(Some(Self))
    }

    fn initialize(_command: ()) -> Result<Effect<Self>, OrderRejected> {
        Ok(Effect::Events(vec![]))
    }

    fn transition(&self, _command: ()) -> Result<Effect<Self>, OrderRejected> {
        Ok(Effect::Events(vec![]))
    }
}

impl OperationJob for PlaceOrder {
    type Input = ();
    type Output = String;
    type Error = OrderRejected;
    type Origin = Desk;

    const WORKER_NAME: &'static str = "place-order";
    const KIND: &'static str = "place-order";

    fn label(&self) -> Label {
        Label::new(format!("place-order:{}", self.amount))
    }

    fn origin_id(&self) -> u64 {
        self.origin
    }

    fn encode(&self) -> Result<Value, String> {
        Ok(Value::from(self.amount))
    }
}

fn place() -> PlaceOrder {
    PlaceOrder {
        origin: 7,
        amount: 100,
    }
}

fn queue() -> PendingJobs {
    PendingJobs::new()
}

#[test]
fn request_from_idle_enqueues_the_job_and_records_its_id() {
    let mut pending = queue();

    let events = Operation::<PlaceOrder>::Idle
        .transition(OperationCommand::Request(place()), &mut pending)
        .unwrap();

    let [OperationEvent::Requested { job_id }] = events.as_slice() else {
        panic!("expected exactly one Requested event, got {events:?}");
    };
    let [request] = pending.pushes.as_slice() else {
        panic!("expected exactly one enqueued job");
    };
    assert_eq!(request.job_id, *job_id);
    assert_eq!(request.kind, JobKind::new("place-order"));
    assert_eq!(request.payload, Ok(Value::from(100)));
}

#[test]
fn request_while_in_flight_is_refused() {
    let state = Operation::<PlaceOrder>::Requested {
        job_id: JobId::new(),
    };
    let mut pending = queue();
    let refused = state
        .transition(OperationCommand::Request(place()), &mut pending)
        .unwrap_err();
    assert_eq!(refused, OperationRefused::InFlight);
    assert!(pending.pushes.is_empty());
}

#[test]
fn request_after_confirmation_is_refused() {
    let state = Operation::<PlaceOrder>::Confirmed {
        job_id: JobId::new(),
        output: "filled".to_string(),
        attempts: 1,
    };
    let refused = state
        .transition(OperationCommand::Request(place()), &mut queue())
        .unwrap_err();
    assert_eq!(refused, OperationRefused::AlreadyConfirmed);
}

#[test]
fn request_after_failure_starts_a_fresh_operation() {
    let state = Operation::<PlaceOrder>::Failed {
        job_id: JobId::new(),
        failure: OperationFailure::Rejected(OrderRejected {
            reason: "no funds".to_string(),
        }),
        attempts: 1,
    };
    let events = state
        .transition(OperationCommand::Request(place()), &mut queue())
        .unwrap();
    assert!(matches!(
        events.as_slice(),
        [OperationEvent::Requested { .. }]
    ));
}

#[test]
fn operation_matching_confirm_settles_and_evolves_to_confirmed() {
    let job_id = JobId::new();
    let state = Operation::<PlaceOrder>::Requested { job_id };

    let events = state
        .transition(
            OperationCommand::Confirm {
                job_id,
                output: "filled".to_string(),
                attempts: 2,
            },
            &mut queue(),
        )
        .unwrap();
    assert_eq!(
        events,
        vec![OperationEvent::Confirmed {
            job_id,
            output: "filled".to_string(),
            attempts: 2,
        }]
    );

    let settled = state.evolve(&events[0]).unwrap();
    assert_eq!(
        settled,
        Operation::Confirmed {
            job_id,
            output: "filled".to_string(),
            attempts: 2,
        }
    );
}

#[test]
fn matching_fail_settles_and_evolves_to_failed() {
    let job_id = JobId::new();
    let state = Operation::<PlaceOrder>::Requested { job_id };
    let failure = OperationFailure::Rejected(OrderRejected {
        reason: "no funds".to_string(),
    });

    let events = state
        .transition(
            OperationCommand::Fail {
                job_id,
                failure: failure.clone(),
                attempts: 1,
            },
            &mut queue(),
        )
        .unwrap();
    let settled = state.evolve(&events[0]).unwrap();
    assert_eq!(
        settled,
        Operation::Failed {
            job_id,
            failure,
            attempts: 1,
        }
    );
}

#[test]
fn duplicate_outcome_delivery_is_absorbed_without_events() {
    let job_id = JobId::new();
    let state = Operation::<PlaceOrder>::Confirmed {
        job_id,
        output: "filled".to_string(),
        attempts: 1,
    };

    let events = state
        .transition(
            OperationCommand::Confirm {
                job_id,
                output: "filled".to_string(),
                attempts: 1,
            },
            &mut queue(),
        )
        .unwrap();
    assert_eq!(events, vec![]);
}

#[test]
fn outcome_for_a_different_job_is_refused() {
    let state = Operation::<PlaceOrder>::Requested {
        job_id: JobId::new(),
    };
    let refused = state
        .transition(
            OperationCommand::Confirm {
                job_id: JobId::new(),
                output: "filled".to_string(),
                attempts: 1,
            },
            &mut queue(),
        )
        .unwrap_err();
    assert_eq!(refused, OperationRefused::OutcomeMismatch);
}

#[test]
fn outcome_while_idle_is_refused() {
    let refused = Operation::<PlaceOrder>::Idle
        .transition(
            OperationCommand::Fail {
                job_id: JobId::new(),
                failure: OperationFailure::DeadLettered {
                    reason: DeadReason::RetriesExhausted,
                    detail: "gave up".to_string(),
                },
                attempts: 5,
            },
            &mut queue(),
        )
        .unwrap_err();
    assert_eq!(refused, OperationRefused::OutcomeMismatch);
}

#[test]
fn replaying_an_outcome_onto_idle_is_a_replay_error() {
    let event = OperationEvent::<PlaceOrder>::Confirmed {
        job_id: JobId::new(),
        output: "filled".to_string(),
        attempts: 1,
    };
    assert_eq!(
        Operation::<PlaceOrder>::Idle.evolve(&event),
        Err(OperationReplay)
    );
}

fn ctx(attempt: u32) -> JobContext {
    JobContext {
        job_id: JobId(3),
        attempt,
        max_attempts: 5,
        ..JobContext::default()
    }
}

fn rejected(reason: &str) -> OrderRejected {
    OrderRejected {
        reason: reason.to_string(),
    }
}

#[test]
fn outcomes_are_delivered_before_the_job_ends() {
    let Outcome::Deliver(command, owed) = after_outcome::<PlaceOrder>(
        &ctx(0),
        Ok(JobOutcome::Done("filled".to_string())),
        String::new(),
    ) else {
        panic!("a success must be delivered");
    };
    assert_eq!(
        command,
        OperationCommand::Confirm {
            job_id: JobId(3),
            output: "filled".to_string(),
            attempts: 1,
        }
    );
    assert!(matches!(
        after_delivery(owed, Ok(())),
        Ok(JobOutcome::Done(()))
    ));

    let Outcome::Deliver(command, owed) = after_outcome::<PlaceOrder>(
        &ctx(1),
        Err(JobFailure::Terminal(rejected("no funds"))),
        String::new(),
    ) else {
        panic!("a rejection must be delivered");
    };
    assert_eq!(
        command,
        OperationCommand::Fail {
            job_id: JobId(3),
            failure: OperationFailure::Rejected(rejected("no funds")),
            attempts: 2,
        }
    );
    assert!(matches!(
        after_delivery(owed, Ok(())),
        Err(JobFailure::Terminal(_))
    ));
}

#[test]
fn a_delivery_that_failed_puts_the_job_off() {
    let down = || Err(OriginDeliveryError("down".to_string()));

    assert!(matches!(
        after_delivery::<OrderRejected>(Owed::Success, down()),
        Ok(JobOutcome::Defer(Delay { secs: 5, nanos: 0 }))
    ));
    assert!(matches!(
        after_delivery(Owed::Rejection(rejected("no")), down()),
        Ok(JobOutcome::Defer(_))
    ));
    assert!(matches!(
        after_delivery(Owed::Failure(rejected("no")), down()),
        Err(JobFailure::Transient(_))
    ));
}

#[test]
fn only_the_final_transient_attempt_delivers_a_verdict() {
    let transient = || Err(JobFailure::Transient(rejected("timeout")));

    assert!(matches!(
        after_outcome::<PlaceOrder>(&ctx(1), transient(), "chain".to_string()),
        Outcome::Finish(Err(JobFailure::Transient(_)))
    ));
    let Outcome::Deliver(command, owed) =
        after_outcome::<PlaceOrder>(&ctx(4), transient(), "chain".to_string())
    else {
        panic!("the final attempt must be delivered");
    };
    assert_eq!(
        command,
        OperationCommand::Fail {
            job_id: JobId(3),
            failure: OperationFailure::DeadLettered {
                reason: DeadReason::RetriesExhausted,
                detail: "chain".to_string(),
            },
            attempts: 5,
        }
    );
    assert!(matches!(owed, Owed::Failure(_)));
    assert!(matches!(
        after_outcome::<PlaceOrder>(
            &ctx(0),
            Ok(JobOutcome::Defer(Delay::from_secs(9))),
            String::new()
        ),
        Outcome::Finish(Ok(JobOutcome::Defer(Delay { secs: 9, nanos: 0 })))
    ));
    assert_eq!(place().label().to_string(), "place-order:100");
    assert_eq!(place().origin_id(), 7);
}

#[test]
fn operations_run_from_step_to_step_until_they_end() {
    let first = first_step::<OperationCommand<PlaceOrder>, OrderRejected>(&JobContext {
        claim_seq: 2,
        ..ctx(0)
    });
    assert!(matches!(first, RunStep::Submit));

    let step = after_submitting::<PlaceOrder>(
        &ctx(0),
        Err(JobFailure::Terminal(rejected("no"))),
        "no".to_string(),
    );
    let RunStep::Deliver(OperationCommand::Fail { failure, attempts, .. }, owed) = step else {
        panic!("expected a delivery");
    };
    assert_eq!(failure, OperationFailure::Rejected(rejected("no")));
    assert_eq!(attempts, 1);
    let step = after_delivering::<PlaceOrder>(owed, Ok(()));
    assert!(matches!(
        step,
        RunStep::End(Err(JobFailure::Terminal(error))) if error == rejected("no")
    ));
}

#[test]
fn operations_submit_again_only_what_never_arrived() {
    let not_submitted =
        after_reconciling::<PlaceOrder>(&ctx(0), Ok(Reconciliation::NotSubmitted), String::new());
    assert!(matches!(not_submitted, RunStep::Submit));

    let settled = after_reconciling::<PlaceOrder>(
        &ctx(0),
        Ok(Reconciliation::Settled("filled".to_string())),
        String::new(),
    );
    assert!(matches!(
        settled,
        RunStep::Deliver(OperationCommand::Confirm { output, .. }, Owed::Success)
            if output == "filled"
    ));

    let delay = Delay::from_secs(9);
    let unknown = after_reconciling::<PlaceOrder>(
        &ctx(0),
        Ok(Reconciliation::Indeterminate(delay)),
        String::new(),
    );
    assert!(matches!(
        unknown,
        RunStep::End(Ok(JobOutcome::Defer(wait))) if wait == delay
    ));
}
