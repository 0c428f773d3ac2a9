//! Materialized views, and how a store is brought up.

use event_sorcery::dispatch::{Effect, Nil};
use event_sorcery::entity::{CompactionPolicy, EventSourced};
use event_sorcery::lifecycle::{Lifecycle, LifecycleError};
use event_sorcery::projection::{
    after_view_failure, loaded_entity, parse_rows, replay_missed_events, sqlite_backing,
    start_replay, updated_view, validate_column, validate_values, Column, ProjectionError,
    StoredView, Table, ViewFailure, ViewRow,
};
use event_sorcery::reactor::{ErrorKind, ErrorNode, RetryStep};
use event_sorcery::schema_registry::SchemaReconciliation;
use event_sorcery::wire::{build, StartupStep};

#[derive(Clone, Debug, PartialEq)]
struct Counter {
    value: u32,
}

#[derive(Clone, Debug, PartialEq)]
enum CounterEvent {
    Created { initial: u32 },
    Incremented,
}

#[derive(Clone, Debug, PartialEq)]
struct CounterError;

impl EventSourced for Counter {
    type Id = String;
    type Event = CounterEvent;
    type Command = ();
    type Error = CounterError;
    type Jobs = Nil;

    const AGGREGATE_TYPE: &'static str = "Counter";
    const SCHEMA_VERSION: u64 = 1;

    fn originate(event: &CounterEvent) -> Option<Self> {
        match event {
            CounterEvent::Created { initial } => Some(Self { value: *initial }),
            CounterEvent::Incremented => None,
        }
    }

    fn evolve(entity: &Self, event: &CounterEvent) -> Result<Option<Self>, CounterError> {
        match event {
            CounterEvent::Created { .. } => Ok(None),
            CounterEvent::Incremented => Ok(Some(Self {
                value: entity.value + 1,
            })),
        }
    }

    fn initialize(_command: ()) -> Result<Effect<Self>, CounterError> {
        Ok(Effect::Events(vec![]))
    }

    fn transition(&self, _command: ()) -> Result<Effect<Self>, CounterError> {
        Ok(Effect::Events(vec![]))
    }
}

fn failed() -> Lifecycle<Counter> {
    Lifecycle::Failed {
        error: LifecycleError::EventCantOriginate {
            event: CounterEvent::Incremented,
        },
        last_valid_entity: None,
    }
}

#[test]
fn load_live_entity_returns_some() {
    let view = Some(Lifecycle::Live(Counter { value: 3 }));

    assert!(matches!(loaded_entity(view), Ok(Some(Counter { value: 3 }))));
}

#[test]
fn load_missing_view_returns_none() {
    assert!(matches!(loaded_entity::<Counter>(None), Ok(None)));
}

#[test]
fn load_uninitialized_returns_none() {
    let view = Some(Lifecycle::<Counter>::Uninitialized);

    assert!(matches!(loaded_entity(view), Ok(None)));
}

#[test]
fn load_failed_returns_error() {
    let Err(ProjectionError::Lifecycle(error)) = loaded_entity(Some(failed())) else {
        panic!("a failed entity must be reported");
    };

    assert!(matches!(*error, LifecycleError::EventCantOriginate { .. }));
}

#[test]
fn columns_must_exist_and_hold_values() {
    let columns = vec!["view_id".to_string(), "status".to_string()];
    let status = Column("status");

    assert!(validate_column::<Counter>("counters", status, &columns).is_ok());
    let Err(ProjectionError::ColumnNotFound { column, table }) =
        validate_column::<Counter>("counters", Column("state"), &columns)
    else {
        panic!("a missing column must be reported");
    };
    assert_eq!((column.to_string(), table), ("state".to_string(), "counters".to_string()));

    assert!(validate_values::<Counter>("counters", status, 0, 0).is_ok());
    assert!(validate_values::<Counter>("counters", status, 4, 1).is_ok());
    assert!(matches!(
        validate_values::<Counter>("counters", status, 4, 0),
        Err(ProjectionError::StaleColumn { row_count: 4, .. })
    ));
    assert_eq!(Table("counters").to_string(), "counters");
}

#[test]
fn queries_need_a_table() {
    let table = Some("counters".to_string());

    assert!(matches!(
        sqlite_backing::<Counter, u8>(&Some(7), &table),
        Ok((7, "counters"))
    ));
    assert!(matches!(
        sqlite_backing::<Counter, u8>(&None, &table),
        Err(ProjectionError::NotSqliteBacked)
    ));
    assert!(matches!(
        sqlite_backing::<Counter, u8>(&Some(7), &None),
        Err(ProjectionError::NotSqliteBacked)
    ));
}

#[test]
fn only_live_rows_are_listed() {
    let rows = vec![
        ViewRow { id: Some("a"), lifecycle: Some(Lifecycle::Live(Counter { value: 1 })) },
        ViewRow { id: None, lifecycle: Some(Lifecycle::Live(Counter { value: 2 })) },
        ViewRow { id: Some("c"), lifecycle: None },
        ViewRow { id: Some("d"), lifecycle: Some(failed()) },
        ViewRow { id: Some("e"), lifecycle: Some(Lifecycle::Live(Counter { value: 5 })) },
    ];

    assert_eq!(
        parse_rows(rows),
        vec![("a", Counter { value: 1 }), ("e", Counter { value: 5 })]
    );
}

fn created(initial: u32) -> CounterEvent {
    CounterEvent::Created { initial }
}

fn live(value: u32) -> StoredView<Counter> {
    StoredView::Found(Lifecycle::Live(Counter { value }))
}

/// Catches a view up with the events of its stream, by their sequences.
fn catch_up(
    stream: &[(i64, CounterEvent)],
    view: StoredView<Counter>,
    view_version: Option<i64>,
) -> (Lifecycle<Counter>, i64) {
    let (start, replay_from) = start_replay(view, view_version);
    let missed = stream
        .iter()
        .filter(|(sequence, _)| *sequence > replay_from)
        .map(|(_, event)| event.clone())
        .collect();
    let max_seq = stream.iter().map(|(sequence, _)| *sequence).max().unwrap_or(0);
    replay_missed_events(start, missed, max_seq)
}

fn three_events() -> Vec<(i64, CounterEvent)> {
    vec![
        (1, created(0)),
        (2, CounterEvent::Incremented),
        (3, CounterEvent::Incremented),
    ]
}

#[test]
fn catch_up_replays_missed_events() {
    let (caught_up, version) = catch_up(&three_events(), live(0), Some(1));

    assert_eq!(
        loaded_entity(Some(caught_up)).unwrap(),
        Some(Counter { value: 2 })
    );
    assert_eq!(version, 3);
}

#[test]
fn catch_up_skips_up_to_date_views() {
    let (caught_up, version) = catch_up(&[(1, created(5))], live(5), Some(1));

    assert_eq!(
        loaded_entity(Some(caught_up)).unwrap(),
        Some(Counter { value: 5 })
    );
    assert_eq!(version, 1);
}

#[test]
fn catch_up_is_idempotent() {
    let events = three_events();

    let (once, version) = catch_up(&events, live(0), Some(1));
    let (twice, version) = catch_up(&events, StoredView::Found(once), Some(version));

    assert_eq!(
        loaded_entity(Some(twice)).unwrap(),
        Some(Counter { value: 2 })
    );
    assert_eq!(version, 3);
}

#[test]
fn catch_up_rebuilds_missing_view_row() {
    let events = [(1, created(10)), (2, CounterEvent::Incremented)];

    let (caught_up, _) = catch_up(&events, StoredView::Missing, None);

    assert_eq!(
        loaded_entity(Some(caught_up)).unwrap(),
        Some(Counter { value: 11 })
    );
}

#[test]
fn catch_up_tolerates_sequence_gap() {
    let events = [(1, created(0)), (3, CounterEvent::Incremented)];

    let (caught_up, version) = catch_up(&events, live(0), Some(1));

    assert_eq!(
        loaded_entity(Some(caught_up)).unwrap(),
        Some(Counter { value: 1 })
    );
    assert_eq!(
        version, 3,
        "view advances to max event sequence despite the gap"
    );
}

#[test]
fn catch_up_tolerates_non_contiguous_global_sequencing() {
    let events = [
        (24, created(0)),
        (4559, CounterEvent::Incremented),
        (4560, CounterEvent::Incremented),
        (4561, CounterEvent::Incremented),
    ];

    let (caught_up, version) = catch_up(&events, StoredView::Missing, None);

    assert_eq!(
        loaded_entity(Some(caught_up)).unwrap(),
        Some(Counter { value: 3 })
    );
    assert_eq!(version, 4561);
}

#[test]
fn catch_up_recovers_from_incompatible_view_payload() {
    let (caught_up, version) = catch_up(&three_events(), StoredView::Incompatible, Some(1));

    assert!(matches!(caught_up, Lifecycle::Live(Counter { value: 2 })));
    assert_eq!(version, 3);
}

#[test]
fn rebuild_replays_all_events_from_scratch() {
    let (stale, version) = catch_up(&three_events(), live(99), Some(3));
    assert!(matches!(stale, Lifecycle::Live(Counter { value: 99 })));
    assert_eq!(version, 3);

    let (rebuilt, _) = catch_up(&three_events(), StoredView::Missing, None);

    assert_eq!(
        loaded_entity(Some(rebuilt)).unwrap(),
        Some(Counter { value: 2 })
    );
}

#[test]
fn replays_start_at_the_view_or_at_the_very_start() {
    assert_eq!(start_replay(live(1), Some(2)).1, 2);
    assert_eq!(start_replay(live(1), None).1, 0);
    assert_eq!(start_replay::<Counter>(StoredView::Missing, Some(2)).1, 0);
    assert_eq!(start_replay::<Counter>(StoredView::Incompatible, Some(2)).1, 0);
}

#[test]
fn views_follow_their_events() {
    let first = updated_view::<Counter>(None, created(0));
    let incremented = updated_view(Some(first), CounterEvent::Incremented);

    assert!(matches!(incremented, Lifecycle::Live(Counter { value: 1 })));
    assert!(matches!(
        updated_view::<Counter>(None, CounterEvent::Incremented),
        Lifecycle::Failed { .. }
    ));
}

#[test]
fn view_updates_are_retried_on_conflicts_and_while_busy() {
    let busy = |code: &str| {
        ViewFailure::Other(ErrorNode {
            kind: ErrorKind::Database(Some(code.to_string())),
            source: None,
        })
    };

    assert_eq!(
        after_view_failure(0, &ViewFailure::OptimisticLock),
        RetryStep::RetryAfter(10)
    );
    assert_eq!(
        after_view_failure(9, &ViewFailure::OptimisticLock),
        RetryStep::RetryAfter(1000)
    );
    assert_eq!(
        after_view_failure(10, &ViewFailure::OptimisticLock),
        RetryStep::GiveUp
    );
    assert_eq!(after_view_failure(1, &busy("5")), RetryStep::RetryAfter(20));
    assert_eq!(after_view_failure(1, &busy("1")), RetryStep::GiveUp);
}

#[test]
fn versions_are_recorded_last() {
    let steps = |reconciliation, projected| build(reconciliation, projected, CompactionPolicy::Retain);

    assert_eq!(
        steps(SchemaReconciliation::Changed, true),
        vec![
            StartupStep::ClearSnapshots,
            StartupStep::RebuildViews,
            StartupStep::RecordVersion,
            StartupStep::Serve,
        ]
    );
    assert_eq!(
        steps(SchemaReconciliation::Unchanged, true),
        vec![
            StartupStep::CatchUpViews,
            StartupStep::RecordVersion,
            StartupStep::Serve,
        ]
    );
    assert_eq!(
        steps(SchemaReconciliation::Changed, false),
        vec![
            StartupStep::ClearSnapshots,
            StartupStep::RecordVersion,
            StartupStep::Serve,
        ]
    );
    assert_eq!(
        steps(SchemaReconciliation::Unchanged, false),
        vec![StartupStep::RecordVersion, StartupStep::Serve]
    );
}
