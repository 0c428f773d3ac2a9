//! The registry of schema versions.

use event_sorcery::dispatch::Effect;
use event_sorcery::entity::{CompactionPolicy, EventSourced};
use event_sorcery::lifecycle::Lifecycle;
use event_sorcery::schema_registry::{
    load_registry, reconcile, record_version, stored_version, ReconcileError, SchemaReconciliation,
    SchemaRegistry, SchemaRegistryCommand, SchemaRegistryEvent, REGISTRY_ID,
};

fn updated(name: &str, version: u64) -> SchemaRegistryEvent {
    SchemaRegistryEvent::VersionUpdated {
        name: name.to_string(),
        version,
    }
}

fn register(name: &str, version: u64) -> SchemaRegistryCommand {
    SchemaRegistryCommand::Register {
        name: name.to_string(),
        version,
    }
}

#[test]
fn register_new_aggregate_emits_event() {
    let aggregate = Lifecycle::<SchemaRegistry>::default();

    let Ok(handled) = aggregate.handle(register("Position", 1)) else {
        panic!("a new aggregate must be registered");
    };

    assert_eq!(handled.events, vec![updated("Position", 1)]);
}

#[test]
fn register_same_version_is_noop() {
    let mut aggregate = Lifecycle::<SchemaRegistry>::default();
    aggregate.apply(updated("Position", 1));

    let Ok(handled) = aggregate.handle(register("Position", 1)) else {
        panic!("the same version must be accepted");
    };

    assert!(handled.events.is_empty());
}

#[test]
fn register_new_version_emits_event() {
    let mut aggregate = Lifecycle::<SchemaRegistry>::default();
    aggregate.apply(updated("Position", 1));

    let Ok(handled) = aggregate.handle(register("Position", 2)) else {
        panic!("a new version must be registered");
    };

    assert_eq!(handled.events, vec![updated("Position", 2)]);
}

#[test]
fn tracks_multiple_aggregates() {
    let mut aggregate = Lifecycle::<SchemaRegistry>::default();

    aggregate.apply(SchemaRegistryEvent::VersionUpdated {
        name: "Position".to_string(),
        version: 1,
    });
    aggregate.apply(SchemaRegistryEvent::VersionUpdated {
        name: "OffchainOrder".to_string(),
        version: 3,
    });

    let Lifecycle::Live(registry) = &aggregate else {
        panic!("Expected Live state");
    };

    assert_eq!(registry.version_of("Position"), Some(1));
    assert_eq!(registry.version_of("OffchainOrder"), Some(3));
    assert_eq!(registry.version_of("Unknown"), None);
}

#[test]
fn a_later_version_takes_the_place_of_an_earlier_one() {
    let events = vec![updated("A", 1), updated("B", 5), updated("A", 2)];

    let registry = load_registry(&events).unwrap();

    assert_eq!(registry.version_of("A"), Some(2));
    assert_eq!(registry.version_of("B"), Some(5));
    assert_eq!(registry.clone().version_of("A"), Some(2));
    assert_eq!(stored_version(&events, "B"), Some(5));
    assert!(load_registry(&vec![]).is_none());
    assert_eq!(stored_version(&vec![], "A"), None);
}

#[test]
fn registries_are_equal_by_their_versions() {
    let registry = |events: Vec<SchemaRegistryEvent>| load_registry(&events).unwrap();
    let again = registry(vec![updated("A", 1), updated("B", 5), updated("A", 2)]);

    assert_eq!(again, registry(vec![updated("A", 2), updated("B", 5)]));
    assert_eq!(again, registry(vec![updated("B", 5), updated("A", 2)]));
    assert_eq!(again, again.clone());
    assert_ne!(again, registry(vec![updated("A", 1), updated("B", 5)]));
    assert_ne!(again, registry(vec![updated("A", 2)]));
    assert_ne!(registry(vec![updated("A", 2)]), again);
}

#[test]
fn reconciler_detects_version_change() {
    let mut events = vec![];
    let name = SchemaRegistry::AGGREGATE_TYPE;
    let outcome = |events: &Vec<SchemaRegistryEvent>| {
        reconcile(name, stored_version(events, name), 1, CompactionPolicy::Retain)
    };

    assert_eq!(outcome(&events), Ok(SchemaReconciliation::Changed));
    assert_eq!(outcome(&events), Ok(SchemaReconciliation::Changed));

    let command = record_version(name, 1);
    assert_eq!(command, register("SchemaRegistry", 1));
    let Ok(Effect::Events(recorded)) = SchemaRegistry::initialize(command) else {
        panic!("recording a version gives events");
    };
    events.extend(recorded);

    assert_eq!(outcome(&events), Ok(SchemaReconciliation::Unchanged));
}

#[test]
fn compacted_entities_are_reconciled_only_once() {
    let compact = CompactionPolicy::CompactAfterSnapshot;

    assert_eq!(
        reconcile("CompactableWidget", None, 2, compact),
        Ok(SchemaReconciliation::Changed)
    );
    assert_eq!(
        reconcile("CompactableWidget", Some(999), 2, compact),
        Err(ReconcileError::CompactedSnapshotClear {
            aggregate: "CompactableWidget".to_string(),
            old_version: Some(999),
            new_version: 2,
        })
    );
    assert_eq!(
        reconcile("CompactableWidget", Some(999), 2, CompactionPolicy::Retain),
        Ok(SchemaReconciliation::Changed)
    );
}

#[test]
fn registry_events_have_their_stored_names() {
    let event = updated("A", 1);

    assert_eq!(event.event_type(), "SchemaRegistryEvent::VersionUpdated");
    assert_eq!(event.event_version(), "1.0");
    assert_eq!(REGISTRY_ID, "schema");
}
