//! The life of an entity: not there yet, live, or failed.
//!
//! ```text
//! Uninitialized --originate: entity--> Live(entity)
//! Uninitialized --originate: none----> Failed { EventCantOriginate }
//!
//! Live(entity) --evolve: new entity--> Live(new entity)
//! Live(entity) --evolve: none--------> Failed { UnexpectedEvent }
//! Live(entity) --evolve: error-------> Failed { Apply(error) }
//!
//! Failed { .. } ---- any event ------> Failed { AlreadyFailed }
//! ```

use vstd::prelude::*;

use crate::dispatch::Effect;
use crate::entity::EventSourced;
use crate::job::PendingPush;

verus! {

/// An entity and how far it got.
#[derive(Debug)]
pub enum Lifecycle<Entity: EventSourced> {
    Uninitialized,
    Live(Entity),
    Failed { error: LifecycleError<Entity>, last_valid_entity: Option<Box<Entity>> },
}

/// Why an entity failed.
#[derive(Debug)]
pub enum LifecycleError<Entity: EventSourced> {
    /// The first event cannot create the entity.
    EventCantOriginate { event: Entity::Event },
    /// The event cannot follow on the entity.
    UnexpectedEvent { entity: Box<Entity>, event: Entity::Event },
    /// The event came after a failure.
    AlreadyFailed { failure: Box<LifecycleError<Entity>>, event: Entity::Event },
    /// The entity's own error.
    Apply(Entity::Error),
}

/// An error that never comes: the type has no values.
#[derive(Clone, Copy, Debug, Eq, PartialEq)]
pub struct Never(std::convert::Infallible);

/// An event as it is handed to views and reactors.
#[derive(Debug)]
pub struct EventEnvelope<Event> {
    pub aggregate_id: String,
    pub sequence: usize,
    pub payload: Event,
    pub metadata: std::collections::HashMap<String, String>,
}

/// What a handled command leaves to be committed: its events, and the job to
/// enqueue with them.
#[derive(Debug)]
pub struct Handled<Entity: EventSourced> {
    pub events: Vec<Entity::Event>,
    pub pending: Option<PendingPush>,
}

/// Whether `copy` is a copy of `error`, part by part.
pub open spec fn error_copied<Entity: EventSourced>(
    error: LifecycleError<Entity>,
    copy: LifecycleError<Entity>,
) -> bool
    decreases error,
{
    match (error, copy) {
        (
            LifecycleError::EventCantOriginate { event },
            LifecycleError::EventCantOriginate { event: event_copy },
        ) => cloned(event, event_copy),
        (
            LifecycleError::UnexpectedEvent { entity, event },
            LifecycleError::UnexpectedEvent { entity: entity_copy, event: event_copy },
        ) => cloned(*entity, *entity_copy) && cloned(event, event_copy),
        (
            LifecycleError::AlreadyFailed { failure, event },
            LifecycleError::AlreadyFailed { failure: failure_copy, event: event_copy },
        ) => error_copied(*failure, *failure_copy) && cloned(event, event_copy),
        (LifecycleError::Apply(domain), LifecycleError::Apply(domain_copy)) => cloned(
            domain,
            domain_copy,
        ),
        _ => false,
    }
}

/// Whether `copy` is a copy of `lifecycle`, part by part.
pub open spec fn lifecycle_copied<Entity: EventSourced>(
    lifecycle: Lifecycle<Entity>,
    copy: Lifecycle<Entity>,
) -> bool {
    match (lifecycle, copy) {
        (Lifecycle::Uninitialized, Lifecycle::Uninitialized) => true,
        (Lifecycle::Live(entity), Lifecycle::Live(entity_copy)) => cloned(entity, entity_copy),
        (
            Lifecycle::Failed { error, last_valid_entity },
            Lifecycle::Failed { error: error_copy, last_valid_entity: last_copy },
        ) => error_copied(error, error_copy) && match (last_valid_entity, last_copy) {
            (Some(last), Some(last_copy)) => cloned(*last, *last_copy),
            (None, None) => true,
            _ => false,
        },
        _ => false,
    }
}

/// The lifecycle after a first event, where `origin` is what it creates.
pub open spec fn originated<Entity: EventSourced>(
    event: Entity::Event,
    origin: Option<Entity>,
) -> Lifecycle<Entity> {
    match origin {
        Some(entity) => Lifecycle::Live(entity),
        None => Lifecycle::Failed {
            error: LifecycleError::EventCantOriginate { event },
            last_valid_entity: None,
        },
    }
}

/// Whether `after` is the lifecycle after an event on a live entity, where `step`
/// is what the entity makes of the event.
pub open spec fn evolved<Entity: EventSourced>(
    entity: Entity,
    event: Entity::Event,
    step: Result<Option<Entity>, Entity::Error>,
    after: Lifecycle<Entity>,
) -> bool {
    match step {
        Ok(Some(next)) => after == Lifecycle::Live(next),
        Ok(None) => after matches Lifecycle::Failed { error, last_valid_entity }
            && last_valid_entity == Some(Box::new(entity))
            && (error matches LifecycleError::UnexpectedEvent { entity: copy, event: unexpected }
            && cloned(entity, *copy) && unexpected == event),
        Err(error) => after == (Lifecycle::Failed {
            error: LifecycleError::Apply(error),
            last_valid_entity: Some(Box::new(entity)),
        }),
    }
}

/// Whether the event may take the lifecycle from `before` to `after`.
pub open spec fn applied<Entity: EventSourced>(
    before: Lifecycle<Entity>,
    event: Entity::Event,
    after: Lifecycle<Entity>,
) -> bool {
    match before {
        Lifecycle::Uninitialized => exists|origin: Option<Entity>| #[trigger]
            call_ensures(Entity::originate, (&event,), origin) && after == originated(
                event,
                origin,
            ),
        Lifecycle::Live(entity) => exists|step: Result<Option<Entity>, Entity::Error>| #[trigger]
            call_ensures(Entity::evolve, (&entity, &event), step) && evolved(
                entity,
                event,
                step,
                after,
            ),
        Lifecycle::Failed { error, last_valid_entity } => after == (Lifecycle::Failed {
            error: LifecycleError::AlreadyFailed { failure: Box::new(error), event },
            last_valid_entity,
        }),
    }
}

/// Whether a copy of the event may take the lifecycle from `before` to `after`.
pub open spec fn copy_applied<Entity: EventSourced>(
    before: Lifecycle<Entity>,
    event: Entity::Event,
    after: Lifecycle<Entity>,
) -> bool {
    exists|copy: Entity::Event| #[trigger] cloned(event, copy) && applied(before, copy, after)
}

/// Whether the events may lead through the states, one state before each event and
/// one after the last.
pub open spec fn replays<Entity: EventSourced>(
    states: Seq<Lifecycle<Entity>>,
    events: Seq<Entity::Event>,
) -> bool {
    &&& states.len() == events.len() + 1
    &&& forall|i: int|
        0 <= i < events.len() ==> #[trigger] applied(states[i], events[i], states[i + 1])
}

/// Whether the events may lead from `start` to `end`.
pub open spec fn replayed<Entity: EventSourced>(
    start: Lifecycle<Entity>,
    events: Seq<Entity::Event>,
    end: Lifecycle<Entity>,
) -> bool {
    exists|states: Seq<Lifecycle<Entity>>| #[trigger]
        replays(states, events) && states[0] == start && states.last() == end
}

/// Whether the events, tried one after the other on a copy of `before`, may lead
/// through the states; the trial may stop early.
pub open spec fn tried<Entity: EventSourced>(
    before: Lifecycle<Entity>,
    events: Seq<Entity::Event>,
    states: Seq<Lifecycle<Entity>>,
) -> bool {
    &&& 0 < states.len() <= events.len() + 1
    &&& lifecycle_copied(before, states[0])
    &&& forall|i: int|
        0 <= i < states.len() - 1 ==> #[trigger] copy_applied(states[i], events[i], states[i + 1])
    &&& forall|i: int| 0 <= i < states.len() - 1 ==> !(#[trigger] states[i] is Failed)
}

/// Whether `result` answers a command on `before` whose handler gave `effect`: the
/// handler's error; or the first error of the events, tried on a copy; or the
/// events themselves, none of which the entity refuses.
pub open spec fn answered<Entity: EventSourced>(
    before: Lifecycle<Entity>,
    effect: Result<Effect<Entity>, Entity::Error>,
    result: Result<Handled<Entity>, LifecycleError<Entity>>,
) -> bool {
    match effect {
        Err(domain) => result == Err::<Handled<Entity>, _>(LifecycleError::<Entity>::Apply(domain)),
        Ok(effect) => exists|states: Seq<Lifecycle<Entity>>| #[trigger]
            tried(before, effect.events(), states) && match result {
                Ok(handled) => {
                    &&& handled.events@ == effect.events()
                    &&& handled.pending == effect.pending()
                    &&& states.len() == effect.events().len() + 1
                    &&& !(states.last() is Failed)
                },
                Err(error) => states.last() matches Lifecycle::Failed { error: found, .. } && found
                    == error,
            },
    }
}

/// Whether `result` answers a command: a live entity takes it over, an entity that is
/// not there yet is created by it, a failed one gives a copy of its error back.
pub open spec fn handled<Entity: EventSourced>(
    before: Lifecycle<Entity>,
    command: Entity::Command,
    result: Result<Handled<Entity>, LifecycleError<Entity>>,
) -> bool {
    match before {
        Lifecycle::Uninitialized => exists|effect: Result<Effect<Entity>, Entity::Error>| #[trigger]
            call_ensures(Entity::initialize, (command,), effect) && answered(
                before,
                effect,
                result,
            ),
        Lifecycle::Live(entity) => exists|effect: Result<Effect<Entity>, Entity::Error>| #[trigger]
            call_ensures(Entity::transition, (&entity, command), effect) && answered(
                before,
                effect,
                result,
            ),
        Lifecycle::Failed { error, .. } => result matches Err(copy) && error_copied(error, copy),
    }
}

/// What a lifecycle stands for: its entity, none, or its error.
pub open spec fn resolved<Entity: EventSourced>(lifecycle: Lifecycle<Entity>) -> Result<
    Option<Entity>,
    LifecycleError<Entity>,
> {
    match lifecycle {
        Lifecycle::Live(entity) => Ok(Some(entity)),
        Lifecycle::Uninitialized => Ok(None),
        Lifecycle::Failed { error, .. } => Err(error),
    }
}

impl<Entity: EventSourced> Clone for LifecycleError<Entity> {
    fn clone(&self) -> (copy: Self)
        ensures
            error_copied(*self, copy),
        decreases self,
    {
        match self {
            LifecycleError::EventCantOriginate { event } => LifecycleError::EventCantOriginate {
                event: event.clone(),
            },
            LifecycleError::UnexpectedEvent { entity, event } => LifecycleError::UnexpectedEvent {
                entity: Box::new((**entity).clone()),
                event: event.clone(),
            },
            LifecycleError::AlreadyFailed { failure, event } => LifecycleError::AlreadyFailed {
                failure: Box::new((**failure).clone()),
                event: event.clone(),
            },
            LifecycleError::Apply(domain) => LifecycleError::Apply(domain.clone()),
        }
    }
}

impl<Entity: EventSourced> Clone for Lifecycle<Entity> {
    fn clone(&self) -> (copy: Self)
        ensures
            lifecycle_copied(*self, copy),
    {
        match self {
            Lifecycle::Uninitialized => Lifecycle::Uninitialized,
            Lifecycle::Live(entity) => Lifecycle::Live(entity.clone()),
            Lifecycle::Failed { error, last_valid_entity } => Lifecycle::Failed {
                error: error.clone(),
                last_valid_entity: match last_valid_entity {
                    Some(last) => Some(Box::new((**last).clone())),
                    None => None,
                },
            },
        }
    }
}

impl<Entity: EventSourced> Default for Lifecycle<Entity> {
    fn default() -> (lifecycle: Self)
        ensures
            lifecycle == Lifecycle::<Entity>::Uninitialized,
    {
        Lifecycle::Uninitialized
    }
}

impl<Entity: EventSourced> Lifecycle<Entity> {
    /// The live entity, if there is one, or why it failed.
    pub fn into_result(self) -> (result: Result<Option<Entity>, LifecycleError<Entity>>)
        ensures
            result == resolved(self),
    {
        match self {
            Lifecycle::Live(entity) => Ok(Some(entity)),
            Lifecycle::Uninitialized => Ok(None),
            Lifecycle::Failed { error, .. } => Err(error),
        }
    }

    /// Folds one event into the lifecycle.
    pub fn apply(&mut self, event: Entity::Event)
        ensures
            applied(*old(self), event, *final(self)),
    {
        let mut before = Lifecycle::Uninitialized;
        std::mem::swap(self, &mut before);
        *self = match before {
            Lifecycle::Uninitialized => match Entity::originate(&event) {
                Some(entity) => Lifecycle::Live(entity),
                None => Lifecycle::Failed {
                    error: LifecycleError::EventCantOriginate { event },
                    last_valid_entity: None,
                },
            },
            Lifecycle::Live(entity) => match Entity::evolve(&entity, &event) {
                Ok(Some(next)) => Lifecycle::Live(next),
                Ok(None) => Lifecycle::Failed {
                    error: LifecycleError::UnexpectedEvent {
                        entity: Box::new(entity.clone()),
                        event,
                    },
                    last_valid_entity: Some(Box::new(entity)),
                },
                Err(error) => Lifecycle::Failed {
                    error: LifecycleError::Apply(error),
                    last_valid_entity: Some(Box::new(entity)),
                },
            },
            Lifecycle::Failed { error, last_valid_entity } => Lifecycle::Failed {
                error: LifecycleError::AlreadyFailed { failure: Box::new(error), event },
                last_valid_entity,
            },
        };
    }

    /// Folds events into the lifecycle, one after the other.
    pub fn apply_all(&mut self, events: Vec<Entity::Event>)
        ensures
            replayed(*old(self), events@, *final(self)),
    {
        let ghost start = *self;
        let ghost mut states: Seq<Lifecycle<Entity>> = seq![*self];
        let ghost all = events@;
        for event in iter: events
            invariant
                iter.seq() == all,
                states.len() == iter.index() + 1,
                states[0] == start,
                states.last() == *self,
                replays(states, all.take(iter.index() as int)),
        {
            let ghost before = *self;
            let ghost index = iter.index() as int;
            self.apply(event);
            proof {
                let longer = states.push(*self);
                let events = all.take(index + 1);
                assert forall|i: int| 0 <= i < events.len() implies #[trigger] applied(
                    longer[i],
                    events[i],
                    longer[i + 1],
                ) by {
                    if i < index {
                        assert(applied(states[i], all.take(index)[i], states[i + 1]));
                    } else {
                        assert(events[i] == event);
                    }
                }
                states = longer;
            }
        }
        assert(all.take(all.len() as int) =~= all);
        assert(replays(states, all));
    }

    /// Folds the payload of an envelope into the lifecycle, as its own view.
    pub fn update(&mut self, envelope: &EventEnvelope<Entity::Event>)
        ensures
            copy_applied(*old(self), envelope.payload, *final(self)),
    {
        let event = envelope.payload.clone();
        assert(cloned(envelope.payload, event));
        self.apply(event);
    }

    /// Decides a command: a live entity takes it over, an entity that is not there
    /// yet is created by it, a failed one gives its error back.
    ///
    /// The lifecycle stays as it is. The events are tried on a copy, so that no
    /// event is handed out that the entity itself would refuse.
    pub fn handle(&self, command: Entity::Command) -> (result: Result<
        Handled<Entity>,
        LifecycleError<Entity>,
    >)
        ensures
            handled(*self, command, result),
    {
        let effect = match self {
            Lifecycle::Uninitialized => Entity::initialize(command),
            Lifecycle::Live(entity) => entity.transition(command),
            Lifecycle::Failed { error, .. } => return Err(error.clone()),
        };
        match effect {
            Ok(effect) => self.tried_effect(effect),
            Err(domain) => Err(LifecycleError::Apply(domain)),
        }
    }

    /// Takes an effect apart, once its events were tried on a copy.
    pub fn tried_effect(&self, effect: Effect<Entity>) -> (result: Result<
        Handled<Entity>,
        LifecycleError<Entity>,
    >)
        requires
            !(*self is Failed),
        ensures
            answered(*self, Ok(effect), result),
    {
        let (events, pending) = match effect {
            Effect::Events(events) => (events, None),
            Effect::Dispatch(dispatch) => {
                let (event, pending) = dispatch.into_parts();
                (vec![event], Some(pending))
            },
        };
        assert(events@ =~= effect.events());
        match self.try_events(&events) {
            Ok(()) => Ok(Handled { events, pending }),
            Err(error) => Err(error),
        }
    }

    /// Tries events on a copy; the first failure ends the trial.
    pub fn try_events(&self, events: &Vec<Entity::Event>) -> (result: Result<
        (),
        LifecycleError<Entity>,
    >)
        requires
            !(*self is Failed),
        ensures
            exists|states: Seq<Lifecycle<Entity>>| #[trigger]
                tried(*self, events@, states) && match result {
                    Ok(()) => states.len() == events@.len() + 1 && !(states.last() is Failed),
                    Err(error) => states.last() matches Lifecycle::Failed { error: found, .. }
                        && found == error,
                },
    {
        let mut scratch = self.clone();
        let ghost mut states: Seq<Lifecycle<Entity>> = seq![scratch];
        let mut index: usize = 0;
        while index < events.len()
            invariant
                index <= events@.len(),
                states.len() == index + 1,
                states.last() == scratch,
                !(scratch is Failed),
                tried(*self, events@, states),
            decreases events.len() - index,
        {
            let event = events[index].clone();
            assert(cloned(events@[index as int], event));
            let ghost before = scratch;
            scratch.apply(event);
            proof {
                assert(copy_applied(before, events@[index as int], scratch));
                let longer = states.push(scratch);
                assert forall|i: int| 0 <= i < longer.len() - 1 implies #[trigger] copy_applied(
                    longer[i],
                    events@[i],
                    longer[i + 1],
                ) by {
                    if i < states.len() - 1 {
                        assert(copy_applied(states[i], events@[i], states[i + 1]));
                    }
                }
                states = longer;
                assert(tried(*self, events@, states));
            }
            index += 1;
            match scratch {
                Lifecycle::Failed { error, .. } => {
                    return Err(error);
                },
                other => {
                    scratch = other;
                },
            }
        }
        Ok(())
    }
}

/// No event leads back to an entity that is not there.
pub proof fn law_events_never_uninitialize<Entity: EventSourced>(
    before: Lifecycle<Entity>,
    event: Entity::Event,
    after: Lifecycle<Entity>,
)
    requires
        applied(before, event, after),
    ensures
        !(after is Uninitialized),
{
}

/// A failure is final: every later state is failed too, with the last valid entity
/// of the first failure.
pub proof fn law_failure_is_final<Entity: EventSourced>(
    states: Seq<Lifecycle<Entity>>,
    events: Seq<Entity::Event>,
    failed: int,
    later: int,
)
    requires
        replays(states, events),
        0 <= failed <= later < states.len(),
        states[failed] is Failed,
    ensures
        states[later] is Failed,
        states[later]->last_valid_entity == states[failed]->last_valid_entity,
    decreases later - failed,
{
    if failed < later {
        law_failure_is_final(states, events, failed, later - 1);
        assert(applied(states[later - 1], events[later - 1], states[later - 1 + 1]));
    }
}

/// An entity that is live after its events was live after each of them.
pub proof fn law_live_after_every_event<Entity: EventSourced>(
    states: Seq<Lifecycle<Entity>>,
    events: Seq<Entity::Event>,
    step: int,
)
    requires
        replays(states, events),
        states.last() is Live,
        0 < step < states.len(),
    ensures
        states[step] is Live,
{
    if states[step] is Failed {
        law_failure_is_final(states, events, step, states.len() - 1);
    }
    assert(applied(states[step - 1], events[step - 1], states[step - 1 + 1]));
}

/// A history may be replayed in two parts: the second part goes on where the first
/// one ended.
pub proof fn law_replay_goes_on<Entity: EventSourced>(
    states: Seq<Lifecycle<Entity>>,
    events: Seq<Entity::Event>,
    later_states: Seq<Lifecycle<Entity>>,
    later_events: Seq<Entity::Event>,
)
    requires
        replays(states, events),
        replays(later_states, later_events),
        later_states[0] == states.last(),
    ensures
        replays(states.drop_last() + later_states, events + later_events),
{
    let all_states = states.drop_last() + later_states;
    let all_events = events + later_events;
    assert forall|i: int| 0 <= i < all_events.len() implies #[trigger] applied(
        all_states[i],
        all_events[i],
        all_states[i + 1],
    ) by {
        if i < events.len() {
            assert(applied(states[i], events[i], states[i + 1]));
        } else {
            let j = i - events.len();
            assert(applied(later_states[j], later_events[j], later_states[j + 1]));
        }
    }
}

/// An entity lives through an event exactly as it says itself: it is live after the event
/// with what it made of it, and failed where it made nothing of it or refused it. A failure
/// keeps the event, and the entity as it was before; one that failed before stays so, and
/// keeps both its failure and the entity.
pub proof fn law_entities_decide_what_events_make<Entity: EventSourced>(
    before: Lifecycle<Entity>,
    event: Entity::Event,
    after: Lifecycle<Entity>,
)
    requires
        applied(before, event, after),
    ensures
        match (before, after) {
            (Lifecycle::Uninitialized, Lifecycle::Live(entity)) => call_ensures(
                Entity::originate,
                (&event,),
                Some(entity),
            ),
            (
                Lifecycle::Uninitialized,
                Lifecycle::Failed {
                    error: LifecycleError::EventCantOriginate { event: kept },
                    last_valid_entity,
                },
            ) => kept == event && last_valid_entity is None && call_ensures(
                Entity::originate,
                (&event,),
                None::<Entity>,
            ),
            (Lifecycle::Live(entity), Lifecycle::Live(next)) => call_ensures(
                Entity::evolve,
                (&entity, &event),
                Ok::<_, Entity::Error>(Some(next)),
            ),
            (
                Lifecycle::Live(entity),
                Lifecycle::Failed {
                    error: LifecycleError::UnexpectedEvent { entity: copy, event: kept },
                    last_valid_entity,
                },
            ) => kept == event && cloned(entity, *copy) && last_valid_entity == Some(
                Box::new(entity),
            ) && call_ensures(
                Entity::evolve,
                (&entity, &event),
                Ok::<Option<Entity>, Entity::Error>(None),
            ),
            (
                Lifecycle::Live(entity),
                Lifecycle::Failed { error: LifecycleError::Apply(refusal), last_valid_entity },
            ) => last_valid_entity == Some(Box::new(entity)) && call_ensures(
                Entity::evolve,
                (&entity, &event),
                Err::<Option<Entity>, _>(refusal),
            ),
            (
                Lifecycle::Failed { error, last_valid_entity },
                Lifecycle::Failed {
                    error: LifecycleError::AlreadyFailed { failure, event: kept },
                    last_valid_entity: last_after,
                },
            ) => *failure == error && kept == event && last_after == last_valid_entity,
            _ => false,
        },
{
}

/// What a command leaves to be committed is what the entity decided, whole: the events of
/// its effect, and its job where it dispatched one. An entity that failed decides nothing.
pub proof fn law_commands_leave_what_the_entity_decided<Entity: EventSourced>(
    before: Lifecycle<Entity>,
    command: Entity::Command,
    result: Result<Handled<Entity>, LifecycleError<Entity>>,
)
    requires
        call_ensures(Lifecycle::<Entity>::handle, (&before, command), result),
        result is Ok,
    ensures
        !(before is Failed),
        exists|effect: Effect<Entity>|
            {
                &&& match before {
                    Lifecycle::Uninitialized => call_ensures(
                        Entity::initialize,
                        (command,),
                        Ok::<_, Entity::Error>(effect),
                    ),
                    Lifecycle::Live(entity) => call_ensures(
                        Entity::transition,
                        (&entity, command),
                        Ok::<_, Entity::Error>(effect),
                    ),
                    Lifecycle::Failed { .. } => false,
                }
                &&& match #[trigger] left_by(effect) {
                    (events, pending) => result->Ok_0.events@ == events && result->Ok_0.pending
                        == pending,
                }
            },
{
    let effect = match before {
        Lifecycle::Uninitialized => choose|effect: Result<Effect<Entity>, Entity::Error>|
            #[trigger] call_ensures(Entity::initialize, (command,), effect) && answered(
                before,
                effect,
                result,
            ),
        Lifecycle::Live(entity) => choose|effect: Result<Effect<Entity>, Entity::Error>| #[trigger]
            call_ensures(Entity::transition, (&entity, command), effect) && answered(
                before,
                effect,
                result,
            ),
        Lifecycle::Failed { .. } => arbitrary(),
    };
    let decided = effect->Ok_0;
    assert(left_by(decided).0 =~= decided.events());
}

/// What an effect leaves: its events and no job, or one event and the job that it records.
pub open spec fn left_by<Entity: EventSourced>(effect: Effect<Entity>) -> (
    Seq<Entity::Event>,
    Option<PendingPush>,
) {
    match effect {
        Effect::Events(events) => (events@, None),
        Effect::Dispatch(dispatch) => (seq![dispatch@.event], Some(dispatch@.pending)),
    }
}

/// No event is handed out that the entity would refuse: where a command succeeds, its
/// events, tried one after the other, fail nowhere; where the entity's own handler refuses,
/// its error comes back.
pub proof fn law_commands_leave_only_events_that_apply<Entity: EventSourced>(
    before: Lifecycle<Entity>,
    effect: Result<Effect<Entity>, Entity::Error>,
    result: Result<Handled<Entity>, LifecycleError<Entity>>,
)
    requires
        answered(before, effect, result),
        !(before is Failed),
    ensures
        effect matches Err(refusal) ==> result == Err::<Handled<Entity>, _>(
            LifecycleError::<Entity>::Apply(refusal),
        ),
        result matches Ok(handled) ==> exists|states: Seq<Lifecycle<Entity>>|
            {
                &&& #[trigger] states.len() == handled.events@.len() + 1
                &&& forall|i: int|
                    0 <= i < states.len() ==> !(#[trigger] states[i] is Failed)
                &&& forall|i: int|
                    0 <= i < handled.events@.len() ==> #[trigger] copy_applied(
                        states[i],
                        handled.events@[i],
                        states[i + 1],
                    )
            },
{
    if result is Ok {
        let tried_events = effect->Ok_0.events();
        let states = choose|states: Seq<Lifecycle<Entity>>| #[trigger]
            tried(before, tried_events, states) && states.len() == tried_events.len() + 1 && !(
            states.last() is Failed);
        assert(states.len() == result->Ok_0.events@.len() + 1);
        assert forall|i: int| 0 <= i < states.len() implies !(#[trigger] states[i] is Failed) by {
            if i == states.len() - 1 {
                assert(states[i] == states.last());
            }
        }
    }
}

/// A lifecycle gives its live entity, nothing where there is none yet, or its error.
pub proof fn law_lifecycles_give_their_entity<Entity: EventSourced>(
    lifecycle: Lifecycle<Entity>,
    result: Result<Option<Entity>, LifecycleError<Entity>>,
)
    requires
        call_ensures(Lifecycle::<Entity>::into_result, (lifecycle,), result),
    ensures
        match (lifecycle, result) {
            (Lifecycle::Uninitialized, Ok(found)) => found is None,
            (Lifecycle::Live(entity), Ok(found)) => found == Some(entity),
            (Lifecycle::Failed { error, .. }, Err(reported)) => reported == error,
            _ => false,
        },
{
}

/// A copy of a lifecycle is of the same kind, and so is a copy of an error.
pub proof fn law_copies_are_of_the_same_kind<Entity: EventSourced>(
    lifecycle: Lifecycle<Entity>,
    copy: Lifecycle<Entity>,
    error: LifecycleError<Entity>,
    error_copy: LifecycleError<Entity>,
)
    requires
        lifecycle_copied(lifecycle, copy),
        error_copied(error, error_copy),
    ensures
        lifecycle is Uninitialized <==> copy is Uninitialized,
        lifecycle is Live <==> copy is Live,
        lifecycle is Failed <==> copy is Failed,
        error is EventCantOriginate <==> error_copy is EventCantOriginate,
        error is UnexpectedEvent <==> error_copy is UnexpectedEvent,
        error is AlreadyFailed <==> error_copy is AlreadyFailed,
        error is Apply <==> error_copy is Apply,
        match (lifecycle, copy) {
            (Lifecycle::Live(entity), Lifecycle::Live(entity_copy)) => cloned(entity, entity_copy),
            _ => true,
        },
        match (error, error_copy) {
            (LifecycleError::Apply(domain), LifecycleError::Apply(domain_copy)) => cloned(
                domain,
                domain_copy,
            ),
            _ => true,
        },
{
}

/// A lifecycle follows the events that it is given: one after the other, each as the entity
/// decides, and none of them twice.
pub proof fn law_lifecycles_follow_their_events<Entity: EventSourced>(
    event: Entity::Event,
    events: Vec<Entity::Event>,
)
    ensures
        forall|lifecycle: &mut Lifecycle<Entity>| #[trigger]
            call_ensures(Lifecycle::<Entity>::apply, (lifecycle, event), ()) ==> applied(
                *lifecycle,
                event,
                *final(lifecycle),
            ),
        forall|lifecycle: &mut Lifecycle<Entity>| #[trigger]
            call_ensures(Lifecycle::<Entity>::apply_all, (lifecycle, events), ()) ==> exists|
                states: Seq<Lifecycle<Entity>>,
            |
                {
                    &&& #[trigger] states.len() == events@.len() + 1
                    &&& states[0] == *lifecycle
                    &&& states.last() == *final(lifecycle)
                    &&& forall|i: int|
                        0 <= i < events@.len() ==> #[trigger] applied(
                            states[i],
                            events@[i],
                            states[i + 1],
                        )
                },
        forall|lifecycle: &mut Lifecycle<Entity>, envelope: EventEnvelope<Entity::Event>|
            #[trigger] call_ensures(
                Lifecycle::<Entity>::update,
                (lifecycle, &envelope),
                (),
            ) ==> exists|copy: Entity::Event| #[trigger]
                cloned(envelope.payload, copy) && applied(*lifecycle, copy, *final(lifecycle)),
{
    assert forall|lifecycle: &mut Lifecycle<Entity>| #[trigger]
        call_ensures(Lifecycle::<Entity>::apply_all, (lifecycle, events), ()) implies exists|
        states: Seq<Lifecycle<Entity>>,
    |
        {
            &&& #[trigger] states.len() == events@.len() + 1
            &&& states[0] == *lifecycle
            &&& states.last() == *final(lifecycle)
            &&& forall|i: int|
                0 <= i < events@.len() ==> #[trigger] applied(states[i], events@[i], states[i + 1])
        } by {
        let states = choose|states: Seq<Lifecycle<Entity>>| #[trigger]
            replays(states, events@) && states[0] == *lifecycle && states.last()
                == *final(lifecycle);
        assert(states.len() == events@.len() + 1);
    }
}

} // verus!
