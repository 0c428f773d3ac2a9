//! Materialized views: how they follow the events, and how they are read.
//!
//! Reading and writing the view tables is the caller's work. Each function here takes
//! what was read and says what to write, to retry or to report.

use vstd::prelude::*;

use crate::entity::EventSourced;
use crate::lifecycle::{
    applied, law_replay_goes_on, replayed, replays, resolved, Lifecycle, LifecycleError,
};
use crate::reactor::{
    busy_chain, is_retryable_sqlite_busy, law_delays_grow_up_to_the_longest, retried, retry_step,
    ErrorNode, RetryStep, RETRY_BASE_DELAY_MS, RETRY_MAX_ATTEMPTS, RETRY_MAX_DELAY_MS,
};
use crate::text::same_text;

verus! {

/// The table of a materialized view.
#[derive(Clone, Copy, Debug)]
pub struct Table(pub &'static str);

impl Table {
    pub fn to_string(&self) -> (name: String)
        ensures
            name@ == self.0@,
    {
        self.0.to_owned()
    }
}

/// A column of a view table.
#[derive(Clone, Copy, Debug)]
pub struct Column(pub &'static str);

impl Column {
    pub fn to_string(&self) -> (name: String)
        ensures
            name@ == self.0@,
    {
        self.0.to_owned()
    }
}

/// Why a view cannot be queried.
#[derive(Debug)]
pub enum ProjectionError<Entity: EventSourced> {
    /// There is no view table behind the projection.
    NotSqliteBacked,
    /// The table has no such column.
    ColumnNotFound { column: Column, table: String },
    /// The column has no value in any row, as when its path in the stored form is
    /// out of date.
    StaleColumn { column: Column, table: String, row_count: i64 },
    /// The entity failed.
    Lifecycle(Box<LifecycleError<Entity>>),
}

/// What stands behind a projection: the pool and the table, if there are both.
pub fn sqlite_backing<'backing, Entity: EventSourced, Pool>(
    pool: &'backing Option<Pool>,
    table: &'backing Option<String>,
) -> (result: Result<(&'backing Pool, &'backing str), ProjectionError<Entity>>)
    ensures
        match (*pool, *table) {
            (Some(found), Some(name)) => result matches Ok(backing) && *backing.0 == found
                && backing.1@ == name@,
            _ => result matches Err(ProjectionError::NotSqliteBacked),
        },
{
    match (pool, table) {
        (Some(found), Some(name)) => Ok((found, name.as_str())),
        _ => Err(ProjectionError::NotSqliteBacked),
    }
}

/// Whether a column of this name is among the columns.
pub open spec fn has_column(columns: Seq<String>, name: Seq<char>) -> bool {
    exists|i: int| 0 <= i < columns.len() && (#[trigger] columns[i])@ == name
}

/// Whether the table can be queried by the column: the column must exist.
pub fn validate_column<Entity: EventSourced>(
    table: &str,
    column: Column,
    columns: &Vec<String>,
) -> (result: Result<(), ProjectionError<Entity>>)
    ensures
        if has_column(columns@, column.0@) {
            result is Ok
        } else {
            result matches Err(ProjectionError::ColumnNotFound { column: missing, table: name })
                && missing == column && name@ == table@
        },
{
    let mut index: usize = 0;
    while index < columns.len()
        invariant
            index <= columns.len(),
            forall|i: int| 0 <= i < index ==> (#[trigger] columns@[i])@ != column.0@,
        decreases columns.len() - index,
    {
        if same_text(columns[index].as_str(), column.0) {
            assert(columns@[index as int]@ == column.0@);
            return Ok(());
        }
        index = index + 1;
    }
    Err(ProjectionError::ColumnNotFound { column, table: table.to_owned() })
}

/// Whether the values of the column can be trusted: where the table has rows, one of
/// them has a value.
pub fn validate_values<Entity: EventSourced>(
    table: &str,
    column: Column,
    row_count: i64,
    non_null_count: i64,
) -> (result: Result<(), ProjectionError<Entity>>)
    ensures
        if row_count > 0 && non_null_count == 0 {
            result matches Err(
                ProjectionError::StaleColumn { column: stale, table: name, row_count: rows },
            ) && stale == column && name@ == table@ && rows == row_count
        } else {
            result is Ok
        },
{
    if row_count > 0 && non_null_count == 0 {
        Err(ProjectionError::StaleColumn { column, table: table.to_owned(), row_count })
    } else {
        Ok(())
    }
}

/// The entity of a stored view: none where there is no view or no entity yet, the
/// error of a failed one.
pub fn loaded_entity<Entity: EventSourced>(view: Option<Lifecycle<Entity>>) -> (result: Result<
    Option<Entity>,
    ProjectionError<Entity>,
>)
    ensures
        match view {
            None => result == Ok::<Option<Entity>, ProjectionError<Entity>>(None),
            Some(lifecycle) => result == match resolved(lifecycle) {
                Ok(entity) => Ok(entity),
                Err(error) => Err(ProjectionError::Lifecycle(Box::new(error))),
            },
        },
{
    match view {
        None => Ok(None),
        Some(lifecycle) => match lifecycle.into_result() {
            Ok(entity) => Ok(entity),
            Err(error) => Err(ProjectionError::Lifecycle(Box::new(error))),
        },
    }
}

/// A row of a view table, as far as its parts could be read.
pub struct ViewRow<Id, Entity: EventSourced> {
    pub id: Option<Id>,
    pub lifecycle: Option<Lifecycle<Entity>>,
}

/// The entity of a row, where both of its parts could be read and the entity is live.
pub open spec fn live_row<Id, Entity: EventSourced>(row: ViewRow<Id, Entity>) -> Option<
    (Id, Entity),
> {
    match (row.id, row.lifecycle) {
        (Some(id), Some(Lifecycle::Live(entity))) => Some((id, entity)),
        _ => None,
    }
}

/// The live entities of the rows, in their order.
pub open spec fn live_rows<Id, Entity: EventSourced>(rows: Seq<ViewRow<Id, Entity>>) -> Seq<
    (Id, Entity),
>
    decreases rows.len(),
{
    if rows.len() == 0 {
        Seq::empty()
    } else {
        match live_row(rows.last()) {
            Some(found) => live_rows(rows.drop_last()).push(found),
            None => live_rows(rows.drop_last()),
        }
    }
}

/// The live entities of the rows, in their order. What cannot be read or is not live
/// is left out.
pub fn parse_rows<Id, Entity: EventSourced>(rows: Vec<ViewRow<Id, Entity>>) -> (entities: Vec<
    (Id, Entity),
>)
    ensures
        entities@ == live_rows(rows@),
{
    let ghost all = rows@;
    let mut entities: Vec<(Id, Entity)> = Vec::new();
    for row in iter: rows
        invariant
            iter.seq() == all,
            entities@ == live_rows(all.take(iter.index() as int)),
    {
        proof {
            let longer = all.take(iter.index() + 1);
            assert(longer.drop_last() =~= all.take(iter.index() as int));
            assert(longer.last() == row);
        }
        if let (Some(id), Some(Lifecycle::Live(entity))) = (row.id, row.lifecycle) {
            entities.push((id, entity));
        }
    }
    assert(all.take(all.len() as int) =~= all);
    entities
}

/// A stored view, as it could be read.
#[derive(Debug)]
pub enum StoredView<Entity: EventSourced> {
    Found(Lifecycle<Entity>),
    Missing,
    /// Its stored form is of another version.
    Incompatible,
}

/// Where a view that is behind is replayed from: the view and its version, or the very
/// start where there is no view that could be read.
pub open spec fn replay_start<Entity: EventSourced>(
    view: StoredView<Entity>,
    view_version: Option<i64>,
) -> (Lifecycle<Entity>, i64) {
    match view {
        StoredView::Found(lifecycle) => (
            lifecycle,
            match view_version {
                Some(version) => version,
                None => 0,
            },
        ),
        _ => (Lifecycle::Uninitialized, 0),
    }
}

/// Where a view that is behind is replayed from. The events after the sequence that
/// comes back are to be read.
pub fn start_replay<Entity: EventSourced>(
    view: StoredView<Entity>,
    view_version: Option<i64>,
) -> (start: (Lifecycle<Entity>, i64))
    ensures
        start == replay_start(view, view_version),
{
    match view {
        StoredView::Found(lifecycle) => {
            let version: i64 = match view_version {
                Some(version) => version,
                None => 0,
            };
            (lifecycle, version)
        },
        StoredView::Missing => (Lifecycle::Uninitialized, 0),
        StoredView::Incompatible => (Lifecycle::Uninitialized, 0),
    }
}

/// The view to store once the events that it missed are replayed, with its version:
/// the last sequence of the entity, whatever gaps its sequences have.
pub fn replay_missed_events<Entity: EventSourced>(
    start: Lifecycle<Entity>,
    missed: Vec<Entity::Event>,
    max_seq: i64,
) -> (stored: (Lifecycle<Entity>, i64))
    ensures
        replayed(start, missed@, stored.0),
        stored.1 == max_seq,
{
    let mut lifecycle = start;
    lifecycle.apply_all(missed);
    (lifecycle, max_seq)
}

/// The view after one more event; without a stored view the event is the first one.
pub fn updated_view<Entity: EventSourced>(
    view: Option<Lifecycle<Entity>>,
    event: Entity::Event,
) -> (after: Lifecycle<Entity>)
    ensures
        match view {
            Some(before) => applied(before, event, after),
            None => applied(Lifecycle::Uninitialized, event, after),
        },
{
    let mut lifecycle = match view {
        Some(lifecycle) => lifecycle,
        None => Lifecycle::Uninitialized,
    };
    lifecycle.apply(event);
    lifecycle
}

/// Why a view could not be read or written.
#[derive(Debug)]
pub enum ViewFailure {
    /// Another writer was faster.
    OptimisticLock,
    /// Any other error.
    Other(ErrorNode),
}

/// Whether reading and writing the view again may help.
pub open spec fn view_retryable(failure: ViewFailure) -> bool {
    match failure {
        ViewFailure::OptimisticLock => true,
        ViewFailure::Other(error) => busy_chain(error),
    }
}

/// What to do after a view could not be read or written, and this was tried again
/// `attempt` times: read it again, apply the event again and write it again, or leave
/// it to the next catch-up.
pub fn after_view_failure(attempt: u32, failure: &ViewFailure) -> (step: RetryStep)
    ensures
        match retried(
            attempt as nat,
            RETRY_MAX_ATTEMPTS as nat,
            RETRY_BASE_DELAY_MS as nat,
            RETRY_MAX_DELAY_MS as nat,
            view_retryable(*failure),
        ) {
            Some(delay_ms) => step matches RetryStep::RetryAfter(wait) && wait == delay_ms,
            None => step is GiveUp,
        },
{
    let retryable = match failure {
        ViewFailure::OptimisticLock => true,
        ViewFailure::Other(error) => is_retryable_sqlite_busy(error),
    };
    retry_step(attempt, RETRY_MAX_ATTEMPTS, RETRY_BASE_DELAY_MS, RETRY_MAX_DELAY_MS, retryable)
}

/// A view that is caught up is what a replay of the whole history gives: where the
/// stored view stood for the events up to its version, and the rest is replayed on it.
pub proof fn law_catching_up_replays_the_whole_history<Entity: EventSourced>(
    history: Seq<Entity::Event>,
    missed: Seq<Entity::Event>,
    view: Lifecycle<Entity>,
    caught_up: Lifecycle<Entity>,
)
    requires
        replayed(Lifecycle::Uninitialized, history, view),
        replayed(view, missed, caught_up),
    ensures
        replayed(Lifecycle::Uninitialized, history + missed, caught_up),
{
    let first = choose|states: Seq<Lifecycle<Entity>>| #[trigger]
        replays(states, history) && states[0] == Lifecycle::<Entity>::Uninitialized
            && states.last() == view;
    let second = choose|states: Seq<Lifecycle<Entity>>| #[trigger]
        replays(states, missed) && states[0] == view && states.last() == caught_up;
    law_replay_goes_on(first, history, second, missed);
    let all = first.drop_last() + second;
    assert(all.last() == caught_up);
    assert(all[0] == Lifecycle::<Entity>::Uninitialized) by {
        if history.len() == 0 {
            assert(first.last() == first[0]);
        }
    }
}

/// A view without events to catch up on stays what it is.
pub proof fn law_catching_up_twice_changes_nothing<Entity: EventSourced>(
    view: Lifecycle<Entity>,
    again: Lifecycle<Entity>,
)
    ensures
        replayed(view, Seq::empty(), again) <==> again == view,
{
    if again == view {
        let states = seq![view];
        assert(replays(states, Seq::<Entity::Event>::empty()));
    }
}

/// A view that could be read is replayed from where it stands; one that is missing or of
/// another version is replayed from nothing, whatever version is stored with it, so that
/// no event is left out.
pub proof fn law_replays_start_where_the_view_stands<Entity: EventSourced>(
    view: StoredView<Entity>,
    view_version: Option<i64>,
    start: (Lifecycle<Entity>, i64),
)
    requires
        call_ensures(start_replay::<Entity>, (view, view_version), start),
    ensures
        match view {
            StoredView::Found(found) => start.0 == found && (view_version matches Some(version)
                ==> start.1 == version) && (view_version is None ==> start.1 == 0),
            _ => start.0 is Uninitialized && start.1 == 0,
        },
{
}

/// A view that was replayed stands at the last sequence of its entity, and is what its
/// events lead to.
pub proof fn law_replayed_views_stand_at_the_last_sequence<Entity: EventSourced>(
    start: Lifecycle<Entity>,
    missed: Vec<Entity::Event>,
    max_seq: i64,
    stored: (Lifecycle<Entity>, i64),
)
    requires
        call_ensures(replay_missed_events::<Entity>, (start, missed, max_seq), stored),
    ensures
        stored.1 == max_seq,
        replayed(start, missed@, stored.0),
        missed@.len() == 0 ==> stored.0 == start,
        missed@.len() == 1 ==> applied(start, missed@[0], stored.0),
{
    let states = choose|states: Seq<Lifecycle<Entity>>| #[trigger]
        replays(states, missed@) && states[0] == start && states.last() == stored.0;
    if missed@.len() == 1 {
        let first: int = 0;
        assert(applied(states[first], missed@[first], states[first + 1]));
    }
}

/// A view follows each event as the entity does; without a view, the event is its first.
pub proof fn law_views_follow_each_event<Entity: EventSourced>(
    view: Option<Lifecycle<Entity>>,
    event: Entity::Event,
    after: Lifecycle<Entity>,
)
    requires
        call_ensures(updated_view::<Entity>, (view, event), after),
    ensures
        view matches Some(before) ==> applied(before, event, after),
        view is None ==> applied(Lifecycle::Uninitialized, event, after),
        !(after is Uninitialized),
{
}

/// A stored view gives the entity that is live in it, none where there is none, and the
/// error of one that failed.
pub proof fn law_views_give_their_entity<Entity: EventSourced>(
    view: Option<Lifecycle<Entity>>,
    result: Result<Option<Entity>, ProjectionError<Entity>>,
)
    requires
        call_ensures(loaded_entity::<Entity>, (view,), result),
    ensures
        match (view, result) {
            (None, Ok(found)) => found is None,
            (Some(Lifecycle::Uninitialized), Ok(found)) => found is None,
            (Some(Lifecycle::Live(entity)), Ok(found)) => found == Some(entity),
            (
                Some(Lifecycle::Failed { error, .. }),
                Err(ProjectionError::Lifecycle(reported)),
            ) => *reported == error,
            _ => false,
        },
{
}

/// Rows are listed one by one and in their order: a row is listed where it has a name and
/// a live entity, with both, and else left out.
pub proof fn law_rows_are_listed_in_their_order<Id, Entity: EventSourced>(
    first: Seq<ViewRow<Id, Entity>>,
    row: ViewRow<Id, Entity>,
)
    ensures
        live_rows(Seq::<ViewRow<Id, Entity>>::empty()) == Seq::<(Id, Entity)>::empty(),
        match (row.id, row.lifecycle) {
            (Some(id), Some(Lifecycle::Live(entity))) => live_rows(first.push(row)) == live_rows(
                first,
            ).push((id, entity)),
            _ => live_rows(first.push(row)) == live_rows(first),
        },
{
    assert(first.push(row).drop_last() =~= first);
}

/// A table can be queried by the columns that it has, and by no other.
pub proof fn law_missing_columns_are_reported<Entity: EventSourced>(
    table: &str,
    column: Column,
    columns: Vec<String>,
    result: Result<(), ProjectionError<Entity>>,
)
    requires
        call_ensures(validate_column::<Entity>, (table, column, &columns), result),
    ensures
        match result {
            Ok(()) => exists|i: int| 0 <= i < columns@.len() && (#[trigger] columns@[i])@ == column.0@,
            Err(ProjectionError::ColumnNotFound { column: missing, table: name }) => missing
                == column && name@ == table@ && forall|i: int|
                0 <= i < columns@.len() ==> (#[trigger] columns@[i])@ != column.0@,
            Err(_) => false,
        },
{
}

/// A column is stale exactly where the table has rows and none of them has a value in it.
pub proof fn law_stale_columns_are_reported<Entity: EventSourced>(
    table: &str,
    column: Column,
    row_count: i64,
    non_null_count: i64,
    result: Result<(), ProjectionError<Entity>>,
)
    requires
        call_ensures(validate_values::<Entity>, (table, column, row_count, non_null_count), result),
    ensures
        match result {
            Ok(()) => row_count <= 0 || non_null_count != 0,
            Err(ProjectionError::StaleColumn { column: stale, table: name, row_count: rows }) => {
                row_count > 0 && non_null_count == 0 && stale == column && name@ == table@ && rows
                    == row_count
            },
            Err(_) => false,
        },
{
}

/// A projection can be queried exactly where it has a pool and a table.
pub proof fn law_projections_need_a_table<'backing, Entity: EventSourced, Pool>(
    pool: &'backing Option<Pool>,
    table: &'backing Option<String>,
    result: Result<(&'backing Pool, &'backing str), ProjectionError<Entity>>,
)
    requires
        call_ensures(sqlite_backing::<Entity, Pool>, (pool, table), result),
    ensures
        match result {
            Ok((found, name)) => *pool == Some(*found) && (*table matches Some(own) && name@
                == own@),
            Err(error) => error is NotSqliteBacked && (*pool is None || *table is None),
        },
{
}

/// A view is read and written again where another writer was faster or the database was
/// busy, ten times at most and after no more than a second; any other failure is left to
/// the next catch-up.
pub proof fn law_view_updates_are_retried(attempt: u32, failure: ViewFailure, step: RetryStep)
    requires
        call_ensures(after_view_failure, (attempt, &failure), step),
    ensures
        step is RetryAfter <==> attempt < 10 && match failure {
            ViewFailure::OptimisticLock => true,
            ViewFailure::Other(error) => busy_chain(error),
        },
        step matches RetryStep::RetryAfter(delay_ms) ==> 10 <= delay_ms <= 1000,
        attempt == 0 && step is RetryAfter ==> step == RetryStep::RetryAfter(10),
{
    law_delays_grow_up_to_the_longest(
        0,
        attempt as nat,
        RETRY_BASE_DELAY_MS as nat,
        RETRY_MAX_DELAY_MS as nat,
    );
    vstd::arithmetic::power2::lemma2_to64();
}

/// The rows of a view are listed whole.
pub proof fn law_views_are_listed_whole<Id, Entity: EventSourced>(
    rows: Vec<ViewRow<Id, Entity>>,
    entities: Vec<(Id, Entity)>,
)
    requires
        call_ensures(parse_rows::<Id, Entity>, (rows,), entities),
    ensures
        entities@ == live_rows(rows@),
        entities@.len() <= rows@.len(),
        (forall|i: int|
            0 <= i < rows@.len() ==> (#[trigger] rows@[i]).id is Some && (
            rows@[i].lifecycle matches Some(found) && found is Live)) ==> entities@.len()
            == rows@.len(),
{
    lemma_live_rows_are_counted(rows@);
}

proof fn lemma_live_rows_are_counted<Id, Entity: EventSourced>(rows: Seq<ViewRow<Id, Entity>>)
    ensures
        live_rows(rows).len() <= rows.len(),
        (forall|i: int|
            0 <= i < rows.len() ==> (#[trigger] rows[i]).id is Some && (
            rows[i].lifecycle matches Some(found) && found is Live)) ==> live_rows(rows).len()
            == rows.len(),
    decreases rows.len(),
{
    if rows.len() > 0 {
        let earlier = rows.drop_last();
        lemma_live_rows_are_counted(earlier);
        if forall|i: int|
            0 <= i < rows.len() ==> (#[trigger] rows[i]).id is Some && (
            rows[i].lifecycle matches Some(found) && found is Live) {
            assert forall|i: int| 0 <= i < earlier.len() implies (
            #[trigger] earlier[i]).id is Some && (earlier[i].lifecycle matches Some(found)
                && found is Live) by {
                assert(earlier[i] == rows[i]);
            }
            assert(rows[rows.len() - 1].id is Some);
        }
    }
}

} // verus!
