//! What the framework asks of an event-sourced entity.

use vstd::prelude::*;

verus! {

/// Whether events behind a snapshot are kept.
#[derive(Clone, Copy, Debug, Eq, PartialEq, Structural)]
pub enum CompactionPolicy {
    /// The whole history stays.
    Retain,
    /// Events that a snapshot covers may be deleted.
    CompactAfterSnapshot,
}

/// A domain entity whose state is folded from its events.
///
/// `originate` and `evolve` fold events; `initialize` and `transition` decide
/// commands. Nothing is assumed of what an implementation returns: the contracts
/// of the framework speak of the values that its functions gave.
pub trait EventSourced: Clone + std::fmt::Debug + Sized {
    type Id;

    type Event: Clone + std::fmt::Debug;

    type Command;

    type Error: Clone + std::fmt::Debug;

    /// The jobs that the entity may dispatch.
    type Jobs;

    /// The stream type under which the entity's events are stored.
    const AGGREGATE_TYPE: &'static str;

    /// The version of the entity's stored form.
    const SCHEMA_VERSION: u64;

    /// The entity that a first event creates, if that event can come first.
    fn originate(event: &Self::Event) -> Option<Self>;

    /// The entity after one more event; `Ok(None)` where the event cannot follow.
    fn evolve(entity: &Self, event: &Self::Event) -> Result<Option<Self>, Self::Error>;

    /// What a command does where there is no entity yet.
    fn initialize(command: Self::Command) -> Result<crate::dispatch::Effect<Self>, Self::Error>;

    /// What a command does to the entity.
    fn transition(&self, command: Self::Command) -> Result<
        crate::dispatch::Effect<Self>,
        Self::Error,
    >;
}

} // verus!
