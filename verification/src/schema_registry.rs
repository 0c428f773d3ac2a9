//! Which version of its stored form each entity was last reconciled to.
//!
//! The registry is an event-sourced entity itself. It has no snapshot and no view: its
//! state is folded from all of its events whenever it is needed.

use vstd::prelude::*;
use vstd::std_specs::cmp::PartialEqSpecImpl;

use crate::dispatch::{Effect, Nil};
use crate::entity::{CompactionPolicy, EventSourced};
use crate::lifecycle::Never;
use crate::text::same_text;

verus! {

/// The one stream of the registry.
pub const REGISTRY_ID: &'static str = "schema";

/// The version under which one entity is registered.
#[derive(Debug, Eq, PartialEq)]
struct Registration {
    name: String,
    version: u64,
}

/// The registered version of every entity, by name.
#[derive(Debug)]
pub struct SchemaRegistry {
    versions: Vec<Registration>,
}

/// What happened to the registry.
#[derive(Debug, Eq, PartialEq)]
pub enum SchemaRegistryEvent {
    VersionUpdated { name: String, version: u64 },
}

/// What the registry can be asked for.
#[derive(Debug, Eq, PartialEq)]
pub enum SchemaRegistryCommand {
    Register { name: String, version: u64 },
}

/// Versions by name, later registrations over earlier ones.
spec fn version_map(versions: Seq<Registration>) -> Map<Seq<char>, u64>
    decreases versions.len(),
{
    if versions.len() == 0 {
        Map::empty()
    } else {
        version_map(versions.drop_last()).insert(versions.last().name@, versions.last().version)
    }
}

/// Whether no name occurs twice.
spec fn distinct(versions: Seq<Registration>) -> bool {
    forall|i: int, j: int|
        0 <= i < j < versions.len() ==> (#[trigger] versions[i]).name@ != (
        #[trigger] versions[j]).name@
}

impl View for SchemaRegistry {
    type V = Map<Seq<char>, u64>;

    closed spec fn view(&self) -> Map<Seq<char>, u64> {
        version_map(self.versions@)
    }
}

impl SchemaRegistryEvent {
    /// The registry after the event.
    pub open spec fn recorded(self, registry: Map<Seq<char>, u64>) -> Map<Seq<char>, u64> {
        match self {
            SchemaRegistryEvent::VersionUpdated { name, version } => registry.insert(
                name@,
                version,
            ),
        }
    }

    pub fn event_type(&self) -> (name: String)
        ensures
            name@ == "SchemaRegistryEvent::VersionUpdated"@,
    {
        "SchemaRegistryEvent::VersionUpdated".to_owned()
    }

    pub fn event_version(&self) -> (version: String)
        ensures
            version@ == "1.0"@,
    {
        "1.0".to_owned()
    }
}

impl Clone for SchemaRegistryEvent {
    fn clone(&self) -> (copy: Self)
        ensures
            copy == *self,
    {
        match self {
            SchemaRegistryEvent::VersionUpdated { name, version } => {
                SchemaRegistryEvent::VersionUpdated { name: name.clone(), version: *version }
            },
        }
    }
}

/// The registry that the events lead to, later ones over earlier ones.
pub open spec fn registered(events: Seq<SchemaRegistryEvent>) -> Map<Seq<char>, u64>
    decreases events.len(),
{
    if events.len() == 0 {
        Map::empty()
    } else {
        events.last().recorded(registered(events.drop_last()))
    }
}

/// The events by which a version is registered: none where it is registered already.
pub open spec fn registration(
    registry: Map<Seq<char>, u64>,
    command: SchemaRegistryCommand,
) -> Seq<SchemaRegistryEvent> {
    match command {
        SchemaRegistryCommand::Register { name, version } => if registry.contains_key(name@)
            && registry[name@] == version {
            Seq::empty()
        } else {
            seq![SchemaRegistryEvent::VersionUpdated { name, version }]
        },
    }
}

/// The version under which an entity is registered.
pub open spec fn registered_version(registry: Map<Seq<char>, u64>, name: Seq<char>) -> Option<
    u64,
> {
    if registry.contains_key(name) {
        Some(registry[name])
    } else {
        None
    }
}

impl SchemaRegistry {
    #[verifier::type_invariant]
    spec fn well_formed(self) -> bool {
        distinct(self.versions@)
    }

    /// The version under which the entity is registered.
    pub fn version_of(&self, name: &str) -> (version: Option<u64>)
        ensures
            version == registered_version(self@, name@),
    {
        let mut left: usize = self.versions.len();
        assert(self.versions@.take(left as int) =~= self.versions@);
        while left > 0
            invariant
                left <= self.versions.len(),
                registered_version(self@, name@) == registered_version(
                    version_map(self.versions@.take(left as int)),
                    name@,
                ),
            decreases left,
        {
            left = left - 1;
            let entry = &self.versions[left];
            proof {
                let longer = self.versions@.take(left + 1);
                assert(longer.drop_last() =~= self.versions@.take(left as int));
                assert(longer.last() == self.versions@[left as int]);
            }
            if same_text(entry.name.as_str(), name) {
                return Some(entry.version);
            }
        }
        assert(self.versions@.take(0).len() == 0);
        None
    }

    /// Whether `other` has every version of this registry.
    fn within(&self, other: &Self) -> (contained: bool)
        ensures
            contained <==> submap(self@, other@),
    {
        proof {
            use_type_invariant(self);
        }
        let mut index: usize = 0;
        while index < self.versions.len()
            invariant
                index <= self.versions.len(),
                distinct(self.versions@),
                forall|i: int|
                    0 <= i < index ==> registered_version(
                        other@,
                        (#[trigger] self.versions@[i]).name@,
                    ) == Some(self.versions@[i].version),
            decreases self.versions.len() - index,
        {
            let entry = &self.versions[index];
            proof {
                lemma_entries_are_registered(self.versions@, index as int);
            }
            match other.version_of(entry.name.as_str()) {
                Some(version) if version == entry.version => {},
                _ => {
                    assert(self@.contains_key(entry.name@));
                    return false;
                },
            }
            index = index + 1;
        }
        assert forall|name: Seq<char>| #[trigger] self@.contains_key(name) implies
            registered_version(other@, name) == registered_version(self@, name) by {
            let i = lemma_registered_names_have_entries(self.versions@, name);
            lemma_entries_are_registered(self.versions@, i);
        }
        true
    }

    /// The registry of a first event.
    fn first(event: &SchemaRegistryEvent) -> (registry: Self)
        ensures
            registry@ == event.recorded(Map::empty()),
    {
        let SchemaRegistryEvent::VersionUpdated { name, version } = event;
        let entry = Registration { name: name.clone(), version: *version };
        let registry = Self { versions: vec![entry] };
        proof {
            let versions = registry.versions@;
            assert(versions.drop_last().len() == 0);
            assert(version_map(versions.drop_last()) == Map::<Seq<char>, u64>::empty());
        }
        registry
    }

    /// The registry after one more event.
    fn updated(&self, event: &SchemaRegistryEvent) -> (registry: Self)
        ensures
            registry@ == event.recorded(self@),
    {
        proof {
            use_type_invariant(self);
        }
        let SchemaRegistryEvent::VersionUpdated { name, version } = event;
        let mut versions: Vec<Registration> = Vec::new();
        let mut index: usize = 0;
        assert(version_map(versions@) =~= version_map(self.versions@.take(0)).remove(name@));
        while index < self.versions.len()
            invariant
                index <= self.versions.len(),
                distinct(self.versions@),
                version_map(versions@) == version_map(self.versions@.take(index as int)).remove(
                    name@,
                ),
                distinct(versions@),
                forall|i: int| 0 <= i < versions.len() ==> (#[trigger] versions@[i]).name@ != name@,
                forall|i: int|
                    0 <= i < versions.len() ==> exists|j: int|
                        0 <= j < index && (#[trigger] versions@[i]).name@ == (
                        #[trigger] self.versions@[j]).name@,
            decreases self.versions.len() - index,
        {
            let entry = &self.versions[index];
            proof {
                let longer = self.versions@.take(index + 1);
                assert(longer.drop_last() =~= self.versions@.take(index as int));
                assert(longer.last() == self.versions@[index as int]);
            }
            let ghost copied = versions@;
            if !same_text(entry.name.as_str(), name.as_str()) {
                let kept = Registration { name: entry.name.clone(), version: entry.version };
                versions.push(kept);
                assert(versions@.drop_last() =~= copied);
            }
            proof {
                assert(version_map(versions@) =~= version_map(
                    self.versions@.take(index + 1),
                ).remove(name@));
            }
            index = index + 1;
        }
        assert(self.versions@.take(index as int) =~= self.versions@);
        let ghost others = versions@;
        versions.push(Registration { name: name.clone(), version: *version });
        proof {
            assert(versions@.drop_last() =~= others);
            assert(version_map(versions@) =~= version_map(self.versions@).insert(name@, *version));
        }
        Self { versions }
    }
}

/// Whether every name is registered in `right` as it is in `left`.
pub open spec fn submap(left: Map<Seq<char>, u64>, right: Map<Seq<char>, u64>) -> bool {
    forall|name: Seq<char>| #[trigger]
        left.contains_key(name) ==> registered_version(right, name) == registered_version(
            left,
            name,
        )
}

/// An entry of a list without repeated names is registered with its version.
proof fn lemma_entries_are_registered(versions: Seq<Registration>, index: int)
    requires
        distinct(versions),
        0 <= index < versions.len(),
    ensures
        registered_version(version_map(versions), versions[index].name@) == Some(
            versions[index].version,
        ),
    decreases versions.len(),
{
    if index < versions.len() - 1 {
        assert(versions[index].name@ != versions[versions.len() - 1].name@);
        assert(versions.drop_last()[index] == versions[index]);
        lemma_entries_are_registered(versions.drop_last(), index);
    }
}

/// A registered name has an entry.
proof fn lemma_registered_names_have_entries(versions: Seq<Registration>, name: Seq<char>) -> (index:
    int)
    requires
        version_map(versions).contains_key(name),
    ensures
        0 <= index < versions.len(),
        versions[index].name@ == name,
    decreases versions.len(),
{
    if versions.last().name@ == name {
        versions.len() - 1
    } else {
        lemma_registered_names_have_entries(versions.drop_last(), name)
    }
}

/// Registries are equal where they have the same versions, however they came by them.
impl PartialEq for SchemaRegistry {
    fn eq(&self, other: &Self) -> (equal: bool) {
        let equal = self.within(other) && other.within(self);
        assert(equal ==> self@ =~= other@) by {
            if equal {
                assert forall|name: Seq<char>| #[trigger]
                    self@.contains_key(name) <==> #[trigger] other@.contains_key(name) by {}
                assert forall|name: Seq<char>| #[trigger] self@.contains_key(name) implies self@[name]
                    == other@[name] by {
                    assert(registered_version(other@, name) == registered_version(self@, name));
                }
            }
        }
        equal
    }
}

impl PartialEqSpecImpl for SchemaRegistry {
    open spec fn obeys_eq_spec() -> bool {
        true
    }

    open spec fn eq_spec(&self, other: &Self) -> bool {
        self@ == other@
    }
}

impl Eq for SchemaRegistry {

}

impl Clone for SchemaRegistry {
    fn clone(&self) -> (copy: Self)
        ensures
            copy@ == self@,
    {
        proof {
            use_type_invariant(self);
        }
        let mut versions: Vec<Registration> = Vec::new();
        let mut index: usize = 0;
        while index < self.versions.len()
            invariant
                index <= self.versions.len(),
                versions@ =~= self.versions@.take(index as int),
            decreases self.versions.len() - index,
        {
            let entry = &self.versions[index];
            versions.push(Registration { name: entry.name.clone(), version: entry.version });
            index = index + 1;
        }
        assert(versions@ =~= self.versions@);
        Self { versions }
    }
}

impl EventSourced for SchemaRegistry {
    type Id = String;

    type Event = SchemaRegistryEvent;

    type Command = SchemaRegistryCommand;

    type Error = Never;

    type Jobs = Nil;

    const AGGREGATE_TYPE: &'static str = "SchemaRegistry";

    const SCHEMA_VERSION: u64 = 1;

    fn originate(event: &SchemaRegistryEvent) -> (registry: Option<Self>)
        ensures
            registry matches Some(first) && first@ == event.recorded(Map::empty()),
    {
        Some(Self::first(event))
    }

    fn evolve(registry: &Self, event: &SchemaRegistryEvent) -> (next: Result<Option<Self>, Never>)
        ensures
            next matches Ok(Some(updated)) && updated@ == event.recorded(registry@),
    {
        Ok(Some(registry.updated(event)))
    }

    fn initialize(command: SchemaRegistryCommand) -> (effect: Result<Effect<Self>, Never>)
        ensures
            effect matches Ok(Effect::Events(events)) && events@ == registration(
                Map::empty(),
                command,
            ),
    {
        let SchemaRegistryCommand::Register { name, version } = command;
        let events = vec![SchemaRegistryEvent::VersionUpdated { name, version }];
        Ok(Effect::Events(events))
    }

    fn transition(&self, command: SchemaRegistryCommand) -> (effect: Result<Effect<Self>, Never>)
        ensures
            effect matches Ok(Effect::Events(events)) && events@ == registration(self@, command),
    {
        let SchemaRegistryCommand::Register { name, version } = command;
        let events = match self.version_of(name.as_str()) {
            Some(stored) if stored == version => Vec::new(),
            _ => vec![SchemaRegistryEvent::VersionUpdated { name, version }],
        };
        Ok(Effect::Events(events))
    }
}

/// Folds the registry from all of its events.
pub fn load_registry(events: &Vec<SchemaRegistryEvent>) -> (registry: Option<SchemaRegistry>)
    ensures
        match registry {
            Some(registry) => events.len() > 0 && registry@ == registered(events@),
            None => events.len() == 0,
        },
{
    if events.len() == 0 {
        return None;
    }
    let mut registry = SchemaRegistry::first(&events[0]);
    let mut index: usize = 1;
    proof {
        let first = events@.take(1);
        assert(first.drop_last() =~= Seq::<SchemaRegistryEvent>::empty());
        assert(registered(first.drop_last()) == Map::<Seq<char>, u64>::empty());
        assert(first.last() == events@[0]);
    }
    while index < events.len()
        invariant
            1 <= index <= events.len(),
            registry@ == registered(events@.take(index as int)),
        decreases events.len() - index,
    {
        proof {
            let longer = events@.take(index + 1);
            assert(longer.drop_last() =~= events@.take(index as int));
            assert(longer.last() == events@[index as int]);
        }
        registry = registry.updated(&events[index]);
        index = index + 1;
    }
    assert(events@.take(index as int) =~= events@);
    Some(registry)
}

/// The version under which the entity is registered, read from all events.
pub fn stored_version(events: &Vec<SchemaRegistryEvent>, name: &str) -> (version: Option<u64>)
    ensures
        version == registered_version(registered(events@), name@),
{
    match load_registry(events) {
        Some(registry) => registry.version_of(name),
        None => None,
    }
}

/// Whether the stored form of an entity changed since it was last reconciled.
#[must_use]
#[derive(Clone, Copy, Debug, Eq, PartialEq, Structural)]
pub enum SchemaReconciliation {
    /// It did, or the entity is new: its snapshots are to be deleted, and the version
    /// is to be recorded once everything else is recovered.
    Changed,
    /// It did not.
    Unchanged,
}

/// Why an entity cannot be reconciled.
#[derive(Debug, Eq, PartialEq)]
pub enum ReconcileError {
    /// The snapshots of the entity hold what its events do not hold any more, so they
    /// cannot be deleted.
    CompactedSnapshotClear { aggregate: String, old_version: Option<u64>, new_version: u64 },
}

/// Whether `result` is how an entity is reconciled whose stored form is at `stored`
/// and whose code is at `current`.
pub open spec fn reconciled(
    name: Seq<char>,
    stored: Option<u64>,
    current: u64,
    policy: CompactionPolicy,
    result: Result<SchemaReconciliation, ReconcileError>,
) -> bool {
    if stored == Some(current) {
        result == Ok::<_, ReconcileError>(SchemaReconciliation::Unchanged)
    } else if stored is Some && policy is CompactAfterSnapshot {
        result matches Err(
            ReconcileError::CompactedSnapshotClear { aggregate, old_version, new_version },
        ) && aggregate@ == name && old_version == stored && new_version == current
    } else {
        result == Ok::<_, ReconcileError>(SchemaReconciliation::Changed)
    }
}

/// How an entity is reconciled. Where it changed, its snapshots are to be deleted,
/// which is refused where its events may be gone.
pub fn reconcile(name: &str, stored: Option<u64>, current: u64, policy: CompactionPolicy) -> (result:
    Result<SchemaReconciliation, ReconcileError>)
    ensures
        reconciled(name@, stored, current, policy, result),
{
    let Some(old) = stored else {
        return Ok(SchemaReconciliation::Changed);
    };
    if old == current {
        return Ok(SchemaReconciliation::Unchanged);
    }
    match policy {
        CompactionPolicy::CompactAfterSnapshot => Err(
            ReconcileError::CompactedSnapshotClear {
                aggregate: name.to_owned(),
                old_version: stored,
                new_version: current,
            },
        ),
        CompactionPolicy::Retain => Ok(SchemaReconciliation::Changed),
    }
}

/// The command that records the version once an entity is recovered.
pub fn record_version(name: &str, version: u64) -> (command: SchemaRegistryCommand)
    ensures
        command matches SchemaRegistryCommand::Register { name: registered, version: recorded }
            && registered@ == name@ && recorded == version,
{
    SchemaRegistryCommand::Register { name: name.to_owned(), version }
}

/// A version that was recorded is read back, every other entity keeps its own, and
/// recording it again changes nothing.
pub proof fn law_recorded_versions_are_read_back(
    events: Seq<SchemaRegistryEvent>,
    name: String,
    version: u64,
)
    ensures
        ({
            let command = SchemaRegistryCommand::Register { name, version };
            let before = registered(events);
            let after = registered(events + registration(before, command));
            &&& after == before.insert(name@, version)
            &&& registered_version(after, name@) == Some(version)
            &&& forall|other: Seq<char>|
                other != name@ ==> registered_version(after, other) == registered_version(
                    before,
                    other,
                )
            &&& registration(after, command) == Seq::<SchemaRegistryEvent>::empty()
        }),
{
    let command = SchemaRegistryCommand::Register { name, version };
    let before = registered(events);
    let added = registration(before, command);
    if added.len() == 0 {
        assert(events + added =~= events);
        assert(before.insert(name@, version) =~= before);
    } else {
        assert((events + added).drop_last() =~= events);
        assert((events + added).last() == added[0]);
    }
}

/// An entity stays changed until its version is recorded, and is unchanged from then
/// on. So a recovery that was cut short is done again as a whole.
pub proof fn law_recording_settles_the_version(
    events: Seq<SchemaRegistryEvent>,
    name: String,
    version: u64,
    policy: CompactionPolicy,
    result: Result<SchemaReconciliation, ReconcileError>,
)
    ensures
        ({
            let command = SchemaRegistryCommand::Register { name, version };
            let before = registered(events);
            let after = registered(events + registration(before, command));
            &&& reconciled(name@, registered_version(after, name@), version, policy, result)
                <==> result == Ok::<_, ReconcileError>(SchemaReconciliation::Unchanged)
            &&& reconciled(
                name@,
                registered_version(before, name@),
                version,
                policy,
                Ok(SchemaReconciliation::Unchanged),
            ) <==> registered_version(before, name@) == Some(version)
        }),
{
    law_recorded_versions_are_read_back(events, name, version);
}

/// Snapshots are cleared only where the entity can be rebuilt without them: an entity
/// whose events may be gone is never reconciled as changed once a version of it is
/// recorded, and is refused with both versions instead. An entity that keeps its events
/// is never refused. Nothing is cleared while the version stays the same, and everything
/// is where it changed, whichever way.
pub proof fn law_snapshots_are_cleared_only_where_events_remain(
    name: &str,
    stored: Option<u64>,
    current: u64,
    policy: CompactionPolicy,
    result: Result<SchemaReconciliation, ReconcileError>,
)
    requires
        call_ensures(reconcile, (name, stored, current, policy), result),
    ensures
        policy is CompactAfterSnapshot && stored is Some ==> result != Ok::<_, ReconcileError>(
            SchemaReconciliation::Changed,
        ),
        policy is Retain ==> result is Ok,
        stored is None ==> result == Ok::<_, ReconcileError>(SchemaReconciliation::Changed),
        result == Ok::<_, ReconcileError>(SchemaReconciliation::Unchanged) <==> stored == Some(
            current,
        ),
        result matches Err(
            ReconcileError::CompactedSnapshotClear { aggregate, old_version, new_version },
        ) ==> aggregate@ == name@ && old_version == stored && new_version == current && stored
            != Some(current) && stored is Some,
{
}

/// The version that is read for an entity is the last one that was recorded for it,
/// whatever was recorded for others; none where none ever was.
pub proof fn law_the_last_recorded_version_counts(
    events: Vec<SchemaRegistryEvent>,
    name: &str,
    version: Option<u64>,
)
    requires
        call_ensures(stored_version, (&events, name), version),
    ensures
        match version {
            Some(found) => exists|i: int|
                0 <= i < events@.len() && records(#[trigger] events@[i], name@, found) && (
                forall|j: int|
                    i < j < events@.len() ==> !concerns(#[trigger] events@[j], name@)),
            None => forall|i: int|
                0 <= i < events@.len() ==> !concerns(#[trigger] events@[i], name@),
        },
{
    lemma_last_recorded(events@, name@);
}

/// Whether the event records a version of the entity.
pub open spec fn concerns(event: SchemaRegistryEvent, name: Seq<char>) -> bool {
    event matches SchemaRegistryEvent::VersionUpdated { name: own, .. } && own@ == name
}

/// Whether the event records this version of the entity.
pub open spec fn records(event: SchemaRegistryEvent, name: Seq<char>, version: u64) -> bool {
    event matches SchemaRegistryEvent::VersionUpdated { name: own, version: recorded } && own@
        == name && recorded == version
}

proof fn lemma_last_recorded(events: Seq<SchemaRegistryEvent>, name: Seq<char>)
    ensures
        match registered_version(registered(events), name) {
            Some(found) => exists|i: int|
                0 <= i < events.len() && records(#[trigger] events[i], name, found) && (forall|
                    j: int,
                |
                    i < j < events.len() ==> !concerns(#[trigger] events[j], name)),
            None => forall|i: int| 0 <= i < events.len() ==> !concerns(#[trigger] events[i], name),
        },
    decreases events.len(),
{
    if events.len() > 0 {
        let earlier = events.drop_last();
        lemma_last_recorded(earlier, name);
        assert forall|i: int| 0 <= i < earlier.len() implies #[trigger] earlier[i]
            == events[i] by {}
        let last = events[events.len() - 1];
        if concerns(last, name) {
            let found = registered_version(registered(events), name)->0;
            assert(records(events[events.len() - 1], name, found));
        } else {
            match registered_version(registered(events), name) {
                Some(found) => {
                    let i = choose|i: int|
                        0 <= i < earlier.len() && records(#[trigger] earlier[i], name, found) && (
                        forall|j: int|
                            i < j < earlier.len() ==> !concerns(#[trigger] earlier[j], name));
                    assert(records(events[i], name, found));
                    assert forall|j: int| i < j < events.len() implies !concerns(
                        #[trigger] events[j],
                        name,
                    ) by {
                        if j < earlier.len() {
                            assert(earlier[j] == events[j]);
                        }
                    }
                },
                None => {
                    assert forall|i: int| 0 <= i < events.len() implies !concerns(
                        #[trigger] events[i],
                        name,
                    ) by {
                        if i < earlier.len() {
                            assert(earlier[i] == events[i]);
                        }
                    }
                },
            }
        }
    }
}

/// Recording a version is asked for by name, and records it once: a registry that has the
/// version already records nothing, and any other records exactly that version.
pub proof fn law_versions_are_recorded_once(
    registry: SchemaRegistry,
    name: &str,
    version: u64,
    command: SchemaRegistryCommand,
    effect: Result<Effect<SchemaRegistry>, Never>,
    known: Option<u64>,
)
    requires
        call_ensures(record_version, (name, version), command),
        call_ensures(<SchemaRegistry as EventSourced>::transition, (&registry, command), effect),
        call_ensures(SchemaRegistry::version_of, (&registry, name), known),
    ensures
        match effect {
            Ok(Effect::Events(events)) => if known == Some(version) {
                events@.len() == 0
            } else {
                events@.len() == 1 && records(events@[0], name@, version)
            },
            _ => false,
        },
{
}

/// A registry that an event was folded into has the version that the event records, and
/// every other version as before.
pub proof fn law_folding_records_the_version(
    registry: SchemaRegistry,
    event: SchemaRegistryEvent,
    next: Result<Option<SchemaRegistry>, Never>,
    name: &str,
    before: Option<u64>,
    after: Option<u64>,
)
    requires
        call_ensures(<SchemaRegistry as EventSourced>::evolve, (&registry, &event), next),
        next matches Ok(Some(_)),
        call_ensures(SchemaRegistry::version_of, (&registry, name), before),
        call_ensures(SchemaRegistry::version_of, (&next->Ok_0->0, name), after),
    ensures
        after == match event {
            SchemaRegistryEvent::VersionUpdated { name: own, version } => if own@ == name@ {
                Some(version)
            } else {
                before
            },
        },
{
}

} // verus!
