//! The test helpers, on a counter.

use std::cell::RefCell;

use event_sorcery::dispatch::{Effect, Nil};
use event_sorcery::entity::EventSourced;
use event_sorcery::lifecycle::LifecycleError;
use event_sorcery::reactor::Reactor;
use event_sorcery::testing::{replay, ReactorHarness, TestHarness};

/// Minimal counter entity for testing replay and harness.
#[derive(Debug, Clone, PartialEq, Eq)]
struct Counter {
    value: u32,
}

#[derive(Debug, Clone, PartialEq, Eq)]
enum CounterEvent {
    Created {
        initial: u32,
    },
    Incremented,
    /// Event that evolve rejects (returns None) to test mismatch.
    ResetToZero,
}

#[derive(Debug, Clone, PartialEq, Eq)]
enum CounterError {
    Overflow { value: u32 },
}

enum CounterCommand {
    Create { initial: u32 },
    Increment,
}

impl EventSourced for Counter {
    type Id = String;
    type Event = CounterEvent;
    type Command = CounterCommand;
    type Error = CounterError;
    type Jobs = Nil;

    const AGGREGATE_TYPE: &'static str = "Counter";
    const SCHEMA_VERSION: u64 = 1;

    fn originate(event: &CounterEvent) -> Option<Self> {
        match event {
            CounterEvent::Created { initial } => Some(Self { value: *initial }),
            _ => None,
        }
    }

    fn evolve(entity: &Self, event: &CounterEvent) -> Result<Option<Self>, CounterError> {
        match event {
            CounterEvent::Incremented => {
                let next = entity.value.checked_add(1).ok_or(CounterError::Overflow {
                    value: entity.value,
                })?;
                Ok(Some(Self { value: next }))
            }
            CounterEvent::Created { .. } | CounterEvent::ResetToZero => Ok(None),
        }
    }

    fn initialize(command: CounterCommand) -> Result<Effect<Self>, CounterError> {
        match command {
            CounterCommand::Create { initial } => Ok(Effect::Events(vec![CounterEvent::Created { initial }])),
            CounterCommand::Increment => Ok(Effect::Events(vec![])),
        }
    }

    fn transition(&self, command: CounterCommand) -> Result<Effect<Self>, CounterError> {
        match command {
            CounterCommand::Create { .. } => Ok(Effect::Events(vec![])),
            CounterCommand::Increment => Ok(Effect::Events(vec![CounterEvent::Incremented])),
        }
    }
}

#[test]
fn replay_valid_history_returns_live_entity() {
    let counter = replay::<Counter>(vec![
        CounterEvent::Created { initial: 10 },
        CounterEvent::Incremented,
        CounterEvent::Incremented,
    ])
    .unwrap()
    .unwrap();

    assert_eq!(counter.value, 12);
}

#[test]
fn replay_empty_events_returns_none() {
    let result = replay::<Counter>(vec![]).unwrap();

    assert!(result.is_none());
}

#[test]
fn replay_cant_originate_returns_error() {
    // Incremented is not a genesis event, so originate returns None
    let error = replay::<Counter>(vec![CounterEvent::Incremented]).unwrap_err();

    assert!(matches!(error, LifecycleError::EventCantOriginate { .. }));
}

#[test]
fn replay_unexpected_event_on_evolve_returns_error() {
    // ResetToZero causes evolve to return Ok(None)
    let error = replay::<Counter>(vec![
        CounterEvent::Created { initial: 5 },
        CounterEvent::ResetToZero,
    ])
    .unwrap_err();

    assert!(matches!(error, LifecycleError::UnexpectedEvent { .. }));
}

#[test]
fn harness_given_history_then_command_produces_events() {
    TestHarness::<Counter>::with()
        .given(vec![CounterEvent::Created { initial: 0 }])
        .when(CounterCommand::Increment)
        .then_expect_events(&[CounterEvent::Incremented]);
}

#[test]
fn harness_initialize_produces_genesis_event() {
    TestHarness::<Counter>::with()
        .given_no_previous_events()
        .when(CounterCommand::Create { initial: 42 })
        .then_expect_events(&[CounterEvent::Created { initial: 42 }]);
}

#[test]
fn harness_forgets_a_history_that_is_taken_back() {
    let harness = TestHarness::<Counter>::with()
        .given(vec![CounterEvent::Created { initial: 7 }])
        .given_no_previous_events();

    assert!(harness.events.is_empty());
    assert_eq!(
        harness.when(CounterCommand::Create { initial: 1 }).events(),
        vec![CounterEvent::Created { initial: 1 }]
    );
}

#[test]
fn harness_on_failed_lifecycle_returns_error() {
    let error = TestHarness::<Counter>::with()
        .given(vec![CounterEvent::Incremented])
        .when(CounterCommand::Increment)
        .then_expect_error();

    assert!(matches!(error, LifecycleError::EventCantOriginate { .. }));
}

#[test]
fn harness_compares_events_one_by_one() {
    let history = || vec![CounterEvent::Created { initial: 0 }];
    let incremented = || {
        TestHarness::<Counter>::with()
            .given(history())
            .when(CounterCommand::Increment)
    };

    assert!(incremented().gave_events(&[CounterEvent::Incremented]));
    assert!(!incremented().gave_events(&[CounterEvent::ResetToZero]));
    assert!(!incremented().gave_events(&[CounterEvent::Incremented, CounterEvent::Incremented]));
    assert!(!incremented().gave_events(&[]));
    assert!(!incremented().gave_no_events());
    assert_eq!(incremented().events(), vec![CounterEvent::Incremented]);

    let created_again = TestHarness::<Counter>::with()
        .given(history())
        .when(CounterCommand::Create { initial: 1 });
    assert!(created_again.gave_no_events());
    created_again.then_expect_no_events();

    let failed = TestHarness::<Counter>::with()
        .given(vec![CounterEvent::Incremented])
        .when(CounterCommand::Increment);
    assert!(!failed.gave_events(&[]));
    assert!(!failed.gave_no_events());
}

#[test]
fn replay_reports_the_entity_error() {
    let error = replay::<Counter>(vec![
        CounterEvent::Created { initial: u32::MAX },
        CounterEvent::Incremented,
    ])
    .unwrap_err();

    assert!(matches!(
        error,
        LifecycleError::Apply(CounterError::Overflow { value: u32::MAX })
    ));
}

/// Keeps what it is handed.
struct Spy {
    seen: RefCell<Vec<CounterEvent>>,
}

impl Reactor for Spy {
    type Event = CounterEvent;
    type Error = CounterError;

    fn react(&self, event: CounterEvent) -> Result<(), CounterError> {
        self.seen.borrow_mut().push(event);
        Ok(())
    }
}

#[test]
fn reactor_harness_hands_events_over() {
    let harness = ReactorHarness::new(Spy {
        seen: RefCell::new(vec![]),
    });

    harness
        .receive(CounterEvent::Created { initial: 7 })
        .unwrap();

    assert_eq!(
        *harness.inner().seen.borrow(),
        vec![CounterEvent::Created { initial: 7 }]
    );
}
