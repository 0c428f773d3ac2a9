//! The life of an entity, on a counter.

use std::collections::HashMap;

use event_sorcery::dispatch::{Effect, Nil};
use event_sorcery::entity::EventSourced;
use event_sorcery::lifecycle::{EventEnvelope, Lifecycle, LifecycleError};

/// Test entity: a simple counter with controllable error behavior.
#[derive(Debug, Clone, PartialEq, Eq)]
struct Counter {
    value: u32,
}

#[derive(Debug, Clone, PartialEq, Eq)]
enum CounterEvent {
    Created {
        initial: u32,
    },
    Incremented,
    /// evolve returns Ok(None) for this, triggering Mismatch.
    Invalid,
    /// evolve returns Err for this, triggering Apply.
    Broken,
}

#[derive(Debug, Clone, PartialEq, Eq)]
struct CounterError;

enum CounterCommand {
    Create {
        initial: u32,
    },
    Increment,
    Fail,
    /// Emits a multi-event batch whose first event is rejected by
    /// `originate`/`evolve`, exercising the scratch short-circuit.
    BrokenBatch,
}

impl EventSourced for Counter {
    type Id = String;
    type Event = CounterEvent;
    type Command = CounterCommand;
    type Error = CounterError;
    type Jobs = Nil;

    const AGGREGATE_TYPE: &'static str = "Counter";
    const SCHEMA_VERSION: u64 = 1;

    fn originate(event: &CounterEvent) -> Option<Self> {
        match event {
            CounterEvent::Created { initial } => Some(Self { value: *initial }),
            _ => None,
        }
    }

    fn evolve(entity: &Self, event: &CounterEvent) -> Result<Option<Self>, CounterError> {
        match event {
            CounterEvent::Broken => Err(CounterError),
            CounterEvent::Created { .. } | CounterEvent::Invalid => Ok(None),
            CounterEvent::Incremented => Ok(Some(Self {
                value: entity.value + 1,
            })),
        }
    }

    fn initialize(command: CounterCommand) -> Result<Effect<Self>, CounterError> {
        match command {
            CounterCommand::Create { initial } => Ok(Effect::Events(vec![CounterEvent::Created { initial }])),
            CounterCommand::Increment => Ok(Effect::Events(vec![CounterEvent::Incremented])),
            CounterCommand::Fail => Err(CounterError),
            CounterCommand::BrokenBatch => Ok(Effect::Events(vec![CounterEvent::Incremented, CounterEvent::Incremented])),
        }
    }

    fn transition(&self, command: CounterCommand) -> Result<Effect<Self>, CounterError> {
        match command {
            CounterCommand::Create { .. } => Ok(Effect::Events(vec![])),
            CounterCommand::Increment => Ok(Effect::Events(vec![CounterEvent::Incremented])),
            CounterCommand::Fail => Err(CounterError),
            CounterCommand::BrokenBatch => {
                Ok(Effect::Events(vec![CounterEvent::Invalid, CounterEvent::Incremented]))
            }
        }
    }
}

#[test]
fn originate_success_transitions_to_live() {
    let mut lifecycle = Lifecycle::<Counter>::default();

    lifecycle.apply(CounterEvent::Created { initial: 10 });

    assert!(matches!(lifecycle, Lifecycle::Live(Counter { value: 10 })));
}

#[test]
fn originate_none_transitions_to_failed_mismatch() {
    let mut lifecycle = Lifecycle::<Counter>::default();

    lifecycle.apply(CounterEvent::Incremented);

    assert!(matches!(
        lifecycle,
        Lifecycle::Failed {
            error: LifecycleError::EventCantOriginate { .. },
            last_valid_entity: None,
        }
    ));
}

#[test]
fn evolve_success_stays_live_with_new_state() {
    let mut lifecycle = Lifecycle::Live(Counter { value: 5 });

    lifecycle.apply(CounterEvent::Incremented);

    assert!(matches!(lifecycle, Lifecycle::Live(Counter { value: 6 })));
}

#[test]
fn evolve_mismatch_transitions_to_failed_with_last_valid_entity() {
    let mut lifecycle = Lifecycle::Live(Counter { value: 5 });

    lifecycle.apply(CounterEvent::Invalid);

    match lifecycle {
        Lifecycle::Failed {
            error: LifecycleError::UnexpectedEvent { .. },
            last_valid_entity: Some(last),
        } => assert_eq!(*last, Counter { value: 5 }),
        other => panic!("expected Failed with UnexpectedEvent, got {other:?}"),
    }
}

#[test]
fn evolve_domain_error_transitions_to_failed_apply() {
    let mut lifecycle = Lifecycle::Live(Counter { value: 5 });

    lifecycle.apply(CounterEvent::Broken);

    match lifecycle {
        Lifecycle::Failed {
            error: LifecycleError::Apply(CounterError),
            last_valid_entity: Some(last),
        } => assert_eq!(*last, Counter { value: 5 }),
        other => panic!("expected Failed with Apply, got {other:?}"),
    }
}

#[test]
fn failed_state_is_sticky() {
    let prior_error = LifecycleError::EventCantOriginate {
        event: CounterEvent::Incremented,
    };

    let mut lifecycle = Lifecycle::<Counter>::Failed {
        error: prior_error,
        last_valid_entity: None,
    };

    lifecycle.apply(CounterEvent::Created { initial: 99 });

    assert!(matches!(
        lifecycle,
        Lifecycle::Failed {
            error: LifecycleError::AlreadyFailed { .. },
            ..
        }
    ));
}

#[test]
fn handle_uninitialized_delegates_to_initialize() {
    let lifecycle = Lifecycle::<Counter>::default();

    let handled = lifecycle
        .handle(CounterCommand::Create { initial: 42 })
        .unwrap();

    assert!(handled.pending.is_none());
    assert_eq!(
        handled.events,
        vec![CounterEvent::Created { initial: 42 }]
    );
    // cqrs-es 0.5 re-applies the sink's events to `self` during commit's
    // snapshot rebuild, so `handle` must leave `self` at its pre-command
    // state or every event gets applied twice.
    assert!(matches!(lifecycle, Lifecycle::Uninitialized));
}

#[test]
fn handle_live_delegates_to_transition() {
    let lifecycle = Lifecycle::Live(Counter { value: 0 });

    let handled = lifecycle
        .handle(CounterCommand::Increment)
        .unwrap();

    assert_eq!(handled.events, vec![CounterEvent::Incremented]);
    // Same pre-command-state invariant as the uninitialized case: the
    // entity value must not advance until commit replays the events.
    assert!(matches!(lifecycle, Lifecycle::Live(Counter { value: 0 })));
}

#[test]
fn handle_rejects_events_the_entity_cannot_apply() {
    let mut lifecycle = Lifecycle::<Counter>::default();

    // `initialize` maps Increment to an Incremented event, which
    // `originate` rejects -- the scratch replay must surface that as a
    // command error instead of committing a poisoned event stream.
    let error = lifecycle
        .handle(CounterCommand::Increment)
        .unwrap_err();

    assert!(matches!(error, LifecycleError::EventCantOriginate { .. }));
    assert!(matches!(lifecycle, Lifecycle::Uninitialized));
}

#[test]
fn handle_multi_event_rejection_returns_root_cause_error() {
    let mut lifecycle = Lifecycle::Live(Counter { value: 3 });

    // BrokenBatch emits [Invalid, Incremented]; evolve rejects Invalid.
    // The scratch short-circuit must return the root UnexpectedEvent
    // error, not an AlreadyFailed wrapper from the trailing event.
    let error = lifecycle
        .handle(CounterCommand::BrokenBatch)
        .unwrap_err();

    assert!(matches!(error, LifecycleError::UnexpectedEvent { .. }));
    assert!(matches!(lifecycle, Lifecycle::Live(Counter { value: 3 })));
}

#[test]
fn handle_maps_domain_error_to_lifecycle_apply() {
    let mut lifecycle = Lifecycle::Live(Counter { value: 0 });

    let error = lifecycle
        .handle(CounterCommand::Fail)
        .unwrap_err();

    assert!(matches!(error, LifecycleError::Apply(CounterError)));
    // Error paths must also leave `self` at its pre-command state.
    assert!(matches!(lifecycle, Lifecycle::Live(Counter { value: 0 })));
}

#[test]
fn handle_failed_returns_stored_error() {
    let stored_error = LifecycleError::EventCantOriginate {
        event: CounterEvent::Incremented,
    };
    let mut lifecycle = Lifecycle::<Counter>::Failed {
        error: stored_error.clone(),
        last_valid_entity: None,
    };

    let error = lifecycle
        .handle(CounterCommand::Increment)
        .unwrap_err();

    assert!(matches!(error, LifecycleError::EventCantOriginate { .. }));
}

#[test]
fn view_update_applies_event_to_lifecycle() {
    let mut lifecycle = Lifecycle::<Counter>::default();
    let envelope = EventEnvelope {
        aggregate_id: "test".to_string(),
        sequence: 1,
        payload: CounterEvent::Created { initial: 7 },
        metadata: HashMap::new(),
    };

    lifecycle.update(&envelope);

    assert!(matches!(lifecycle, Lifecycle::Live(Counter { value: 7 })));
}