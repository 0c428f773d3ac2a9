//! Helpers for tests of entities and reactors.

use vstd::pervasive::unreached;
use vstd::prelude::*;
use vstd::std_specs::cmp::PartialEqSpec;

use crate::entity::EventSourced;
use crate::lifecycle::{handled, replayed, resolved, Handled, Lifecycle, LifecycleError};
use crate::projection::law_catching_up_twice_changes_nothing;
use crate::reactor::Reactor;

verus! {

/// Folds events into an entity.
pub fn replay<Entity: EventSourced>(events: Vec<Entity::Event>) -> (result: Result<
    Option<Entity>,
    LifecycleError<Entity>,
>)
    ensures
        exists|end: Lifecycle<Entity>| #[trigger]
            replayed(Lifecycle::Uninitialized, events@, end) && result == resolved(end),
{
    let mut lifecycle = Lifecycle::<Entity>::default();
    let ghost all = events@;
    lifecycle.apply_all(events);
    assert(replayed(Lifecycle::Uninitialized, all, lifecycle));
    lifecycle.into_result()
}

/// A history on which a command is tried.
pub struct TestHarness<Entity: EventSourced> {
    pub events: Vec<Entity::Event>,
}

/// How a command on a history ended.
#[derive(Debug)]
pub struct TestResult<Entity: EventSourced> {
    pub result: Result<Vec<Entity::Event>, LifecycleError<Entity>>,
}

impl<Entity: EventSourced> TestHarness<Entity> {
    /// An empty history.
    pub fn with() -> (harness: Self)
        ensures
            harness.events@ == Seq::<Entity::Event>::empty(),
    {
        Self { events: Vec::new() }
    }

    /// The history `events`.
    #[must_use]
    pub fn given(self, events: Vec<Entity::Event>) -> (harness: Self)
        ensures
            harness.events@ == events@,
    {
        Self { events }
    }

    /// A history without prior events, whatever was given before.
    #[must_use]
    pub fn given_no_previous_events(self) -> (harness: Self)
        ensures
            harness.events@ == Seq::<Entity::Event>::empty(),
    {
        Self { events: Vec::new() }
    }

    /// Decides a command on the entity that the history leads to.
    pub fn when(self, command: Entity::Command) -> (test: TestResult<Entity>)
        ensures
            exists|entity: Lifecycle<Entity>, answer: Result<
                Handled<Entity>,
                LifecycleError<Entity>,
            >| #[trigger]
                handled(entity, command, answer) && replayed(
                    Lifecycle::Uninitialized,
                    self.events@,
                    entity,
                ) && test.result == match answer {
                    Ok(handled) => Ok(handled.events),
                    Err(error) => Err(error),
                },
    {
        let mut lifecycle = Lifecycle::<Entity>::default();
        let ghost history = self.events@;
        lifecycle.apply_all(self.events);
        let answer = lifecycle.handle(command);
        assert(handled(lifecycle, command, answer));
        assert(replayed(Lifecycle::Uninitialized, history, lifecycle));
        let result = match answer {
            Ok(handled) => Ok(handled.events),
            Err(error) => Err(error),
        };
        TestResult { result }
    }
}

/// Whether the events are equal one by one, as their type compares them.
pub open spec fn all_equal<Event: PartialEq>(events: Seq<Event>, expected: Seq<Event>) -> bool {
    &&& events.len() == expected.len()
    &&& forall|i: int|
        0 <= i < events.len() ==> (#[trigger] events[i]).eq_spec(&expected[i])
}

/// Whether their type can only answer that the events are equal one by one.
pub open spec fn all_found_equal<Event: PartialEq>(
    events: Seq<Event>,
    expected: Seq<Event>,
) -> bool {
    &&& events.len() == expected.len()
    &&& forall|i: int, equal: bool|
        0 <= i < events.len() && #[trigger] call_ensures(
            <Event as PartialEq>::eq,
            (&events[i], &expected[i]),
            equal,
        ) ==> equal
}

/// Whether the events are equal one by one.
fn same_events<Event: PartialEq>(events: &Vec<Event>, expected: &[Event]) -> (same: bool)
    ensures
        Event::obeys_eq_spec() ==> (same <==> all_equal(events@, expected@)),
        all_found_equal(events@, expected@) ==> same,
{
    if events.len() != expected.len() {
        return false;
    }
    let mut index: usize = 0;
    while index < events.len()
        invariant
            index <= events.len(),
            events.len() == expected.len(),
            Event::obeys_eq_spec() ==> forall|i: int|
                0 <= i < index ==> (#[trigger] events@[i]).eq_spec(&expected@[i]),
        decreases events.len() - index,
    {
        let equal = <Event as PartialEq>::eq(&events[index], &expected[index]);
        if !equal {
            assert(call_ensures(
                <Event as PartialEq>::eq,
                (&events@[index as int], &expected@[index as int]),
                equal,
            ));
            assert(Event::obeys_eq_spec() ==> !events@[index as int].eq_spec(
                &expected@[index as int],
            ));
            return false;
        }
        index = index + 1;
    }
    true
}

impl<Entity: EventSourced> TestResult<Entity> {
    /// Whether the command gave exactly these events.
    #[must_use]
    pub fn gave_events(&self, expected: &[Entity::Event]) -> (met: bool) where
        Entity::Event: PartialEq,

        ensures
            Entity::Event::obeys_eq_spec() ==> (met <==> (self.result matches Ok(events)
                && all_equal(events@, expected@))),
            (self.result matches Ok(events) && all_found_equal(events@, expected@)) ==> met,
            met ==> self.result is Ok,
    {
        match &self.result {
            Ok(events) => same_events(events, expected),
            Err(_) => false,
        }
    }

    /// Whether the command gave no event.
    #[must_use]
    pub fn gave_no_events(&self) -> (met: bool)
        ensures
            met <==> (self.result matches Ok(events) && events@.len() == 0),
    {
        match &self.result {
            Ok(events) => events.len() == 0,
            Err(_) => false,
        }
    }

    /// Expects that the command gave exactly these events. A command that did not is no
    /// input of this function, which does not return then.
    pub fn then_expect_events(self, expected: &[Entity::Event]) where Entity::Event: PartialEq
        requires
            self.result matches Ok(events) && all_found_equal(events@, expected@),
    {
        if !self.gave_events(expected) {
            unreached()
        }
    }

    /// Expects that the command gave no event. A command that did not is no input of this
    /// function, which does not return then.
    pub fn then_expect_no_events(self)
        requires
            self.result matches Ok(events) && events@.len() == 0,
    {
        if !self.gave_no_events() {
            unreached()
        }
    }

    /// The error of a command that failed.
    pub fn then_expect_error(self) -> (error: LifecycleError<Entity>)
        requires
            self.result is Err,
        ensures
            self.result == Err::<Vec<Entity::Event>, _>(error),
    {
        match self.result {
            Ok(_) => unreached(),
            Err(error) => error,
        }
    }

    /// The events of a command that did not fail.
    pub fn events(self) -> (events: Vec<Entity::Event>)
        requires
            self.result is Ok,
        ensures
            self.result == Ok::<_, LifecycleError<Entity>>(events),
    {
        match self.result {
            Ok(events) => events,
            Err(_) => unreached(),
        }
    }
}

/// A reactor under test.
pub struct ReactorHarness<Tested> {
    pub reactor: Tested,
}

impl<Tested: Reactor> ReactorHarness<Tested> {
    pub fn new(reactor: Tested) -> (harness: Self)
        ensures
            harness.reactor == reactor,
    {
        Self { reactor }
    }

    /// Hands an event to the reactor.
    pub fn receive(&self, event: Tested::Event) -> (result: Result<(), Tested::Error>)
        ensures
            call_ensures(Tested::react, (&self.reactor, event), result),
    {
        self.reactor.react(event)
    }

    /// The reactor itself.
    pub fn inner(&self) -> (reactor: &Tested)
        ensures
            *reactor == self.reactor,
    {
        &self.reactor
    }
}

/// A harness decides a command on the history that it was given last, whatever was given
/// before, and on no history at all where that was asked for.
pub proof fn law_harnesses_know_the_last_history<Entity: EventSourced>(
    before: TestHarness<Entity>,
    events: Vec<Entity::Event>,
    given: TestHarness<Entity>,
    emptied: TestHarness<Entity>,
    fresh: TestHarness<Entity>,
)
    requires
        call_ensures(TestHarness::<Entity>::given, (before, events), given),
        call_ensures(TestHarness::<Entity>::given_no_previous_events, (before,), emptied),
        call_ensures(TestHarness::<Entity>::with, (), fresh),
    ensures
        given.events@ == events@,
        emptied.events@.len() == 0,
        fresh.events@.len() == 0,
{
}

/// A test finds no events exactly where the command succeeded and gave none.
pub proof fn law_tests_see_what_a_command_gave<Entity: EventSourced>(
    test: TestResult<Entity>,
    none: bool,
)
    requires
        call_ensures(TestResult::<Entity>::gave_no_events, (&test,), none),
    ensures
        none ==> test.result is Ok,
        test.result matches Ok(events) ==> (none <==> events@.len() == 0),
{
}

/// A history without events leads to no entity, and a command in a test is decided on the
/// entity that its history leads to: what the test sees are the events that the entity
/// gave, or its error.
pub proof fn law_tests_decide_on_their_history<Entity: EventSourced>(
    events: Vec<Entity::Event>,
    replayed_to: Result<Option<Entity>, LifecycleError<Entity>>,
    harness: TestHarness<Entity>,
    command: Entity::Command,
    test: TestResult<Entity>,
)
    requires
        call_ensures(replay::<Entity>, (events,), replayed_to),
        call_ensures(TestHarness::<Entity>::when, (harness, command), test),
    ensures
        events@.len() == 0 ==> (replayed_to matches Ok(found) && found is None),
        exists|end: Lifecycle<Entity>| #[trigger]
            replayed(Lifecycle::Uninitialized, events@, end) && match (end, replayed_to) {
                (Lifecycle::Uninitialized, Ok(found)) => found is None,
                (Lifecycle::Live(entity), Ok(found)) => found == Some(entity),
                (Lifecycle::Failed { error, .. }, Err(reported)) => reported == error,
                _ => false,
            },
        exists|entity: Lifecycle<Entity>, answer: Result<Handled<Entity>, LifecycleError<Entity>>|
            #[trigger] handled(entity, command, answer) && replayed(
                Lifecycle::Uninitialized,
                harness.events@,
                entity,
            ) && match (answer, test.result) {
                (Ok(handled), Ok(events)) => events == handled.events,
                (Err(error), Err(reported)) => reported == error,
                _ => false,
            },
{
    let end = choose|end: Lifecycle<Entity>| #[trigger]
        replayed(Lifecycle::Uninitialized, events@, end) && replayed_to == resolved(end);
    assert(replayed(Lifecycle::Uninitialized, events@, end));
    if events@.len() == 0 {
        law_catching_up_twice_changes_nothing(Lifecycle::Uninitialized, end);
        assert(events@ =~= Seq::empty());
    }
}

/// A test finds the events that it expects where the command gave just those, as their type
/// compares them, and a reactor is given the event that it is sent.
pub proof fn law_tests_compare_event_by_event<Entity: EventSourced, Tested: Reactor>(
    test: TestResult<Entity>,
    expected: &[Entity::Event],
    met: bool,
    harness: ReactorHarness<Tested>,
    event: Tested::Event,
    reaction: Result<(), Tested::Error>,
) where Entity::Event: PartialEq
    requires
        call_ensures(TestResult::<Entity>::gave_events, (&test, expected), met),
        call_ensures(ReactorHarness::<Tested>::receive, (&harness, event), reaction),
    ensures
        met ==> test.result is Ok,
        Entity::Event::obeys_eq_spec() ==> (met <==> (test.result matches Ok(events) && events@.len()
            == expected@.len() && forall|i: int|
            0 <= i < events@.len() ==> (#[trigger] events@[i]).eq_spec(&expected@[i]))),
        call_ensures(Tested::react, (&harness.reactor, event), reaction),
{
}

} // verus!
