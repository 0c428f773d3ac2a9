//! Reading stored rows, paging through streams, and the outcomes of transactions.

use vstd::prelude::*;

use crate::commit::{snapshot_action, snapshot_stored, stored_event, CommitActionView};
use crate::engine::{
    bytes_from, decode_engine_payload, engine_envelope, law_payloads_are_read_back,
    lemma_byte_envelopes_are_lossless, loaded_payload, native_payload, reserves, stored_payload,
    CommitPayloadEncoding, EngineError, EngineErrorView, EnginePayload, EventView, JsonFailure,
    JsonFailureView, LoadedEvent, LoadedPayload, LoadedPayloadView, SerializedEvent,
    SerializedSnapshot, SnapshotUpdate, StreamIdentity, StreamView, ENGINE_PAYLOAD_KEY,
};
use crate::entity::CompactionPolicy;
use crate::job::{
    claim_fits, claimable, planned, state_evolved, ClaimId, JobContext, JobEvent, JobState,
    WonClaim, WorkerId, FIRST_CLAIM_SEQ, JOB_AGGREGATE_TYPE, JOB_EVENT_VERSION,
};
use crate::job_store::{ClaimDecision, ClaimOutcome, ClaimRead, LeaseRenewal};
use crate::json::{
    json_parsed, json_read, lossless, parse_json, print_json, text_stores, Json, JsonView,
    MAX_JSON_DEPTH,
};
use crate::lifecycle::Lifecycle;

verus! {

/// A row of the event table.
pub struct StoredEventRow {
    pub aggregate_type: String,
    pub aggregate_id: String,
    pub sequence: i64,
    pub event_type: String,
    pub event_version: String,
    pub payload: String,
    pub metadata: String,
}

/// A row of the snapshot table.
pub struct StoredSnapshotRow {
    pub aggregate_id: String,
    pub last_sequence: i64,
    pub snapshot_version: i64,
    pub payload: String,
}

/// A stored number as a count, if it can be one.
pub open spec fn count_of(value: i64) -> Result<usize, EngineErrorView> {
    if 0 <= value <= usize::MAX {
        Ok(value as usize)
    } else {
        Err(EngineErrorView::Integer)
    }
}

/// The value of a stored text.
pub open spec fn value_of(text: Seq<char>) -> Result<JsonView, EngineErrorView> {
    match json_parsed(text) {
        Ok(value) => Ok(value),
        Err(message) => Err(EngineErrorView::Json(JsonFailureView::Reader(message))),
    }
}

/// The stored payload of a text, as a native reader gets it.
pub open spec fn native_payload_of(text: Seq<char>) -> Result<JsonView, EngineErrorView> {
    match value_of(text) {
        Ok(value) => native_payload(value),
        Err(error) => Err(error),
    }
}

/// The stored payload of a text, as a reader of pages gets it.
pub open spec fn loaded_payload_of(text: Seq<char>) -> Result<LoadedPayloadView, EngineErrorView> {
    match value_of(text) {
        Ok(value) => loaded_payload(value),
        Err(error) => Err(error),
    }
}

/// The event that a row holds, or what is wrong: with its payload, its sequence or its
/// metadata, in this order.
pub open spec fn event_of_row(row: StoredEventRow) -> Result<EventView, EngineErrorView> {
    match (native_payload_of(row.payload@), count_of(row.sequence), value_of(row.metadata@)) {
        (Err(error), _, _) => Err(error),
        (Ok(_), Err(error), _) => Err(error),
        (Ok(_), Ok(_), Err(error)) => Err(error),
        (Ok(payload), Ok(sequence), Ok(metadata)) => Ok(
            EventView {
                stream: StreamView {
                    aggregate_type: row.aggregate_type@,
                    aggregate_id: row.aggregate_id@,
                },
                sequence,
                event_type: row.event_type@,
                event_version: row.event_version@,
                payload,
                metadata,
            },
        ),
    }
}

/// What is wrong with a row for a reader of pages: its metadata, its sequence or its
/// payload, in this order.
pub open spec fn loading_error(row: StoredEventRow) -> Option<EngineErrorView> {
    match (value_of(row.metadata@), count_of(row.sequence), loaded_payload_of(row.payload@)) {
        (Err(error), _, _) => Some(error),
        (Ok(_), Err(error), _) => Some(error),
        (Ok(_), Ok(_), Err(error)) => Some(error),
        (Ok(_), Ok(_), Ok(_)) => None,
    }
}

/// What is wrong with a snapshot's row: its payload, its sequence or its version, in
/// this order.
pub open spec fn snapshot_error(row: StoredSnapshotRow) -> Option<EngineErrorView> {
    match (value_of(row.payload@), count_of(row.last_sequence), count_of(row.snapshot_version)) {
        (Err(error), _, _) => Some(error),
        (Ok(_), Err(error), _) => Some(error),
        (Ok(_), Ok(_), Err(error)) => Some(error),
        (Ok(_), Ok(_), Ok(_)) => None,
    }
}

/// A stored number as a count.
pub fn to_count(value: i64) -> (result: Result<usize, EngineError>)
    ensures
        match count_of(value) {
            Ok(count) => result == Ok::<_, EngineError>(count),
            Err(error) => result matches Err(found) && found@ == error,
        },
{
    if value < 0 || value as u64 > usize::MAX as u64 {
        Err(EngineError::Integer)
    } else {
        Ok(value as usize)
    }
}

/// Whether the row stores the event, field for field.
pub open spec fn row_stores(event: EventView, row: StoredEventRow) -> bool {
    &&& row.aggregate_type@ == event.stream.aggregate_type
    &&& row.aggregate_id@ == event.stream.aggregate_id
    &&& row.sequence == event.sequence
    &&& row.event_type@ == event.event_type
    &&& row.event_version@ == event.event_version
    &&& text_stores(event.payload, row.payload@)
    &&& text_stores(event.metadata, row.metadata@)
}

/// The row that stores an event; its sequence must fit the column.
pub fn row_from_event(event: &SerializedEvent) -> (result: Result<StoredEventRow, EngineError>)
    ensures
        if event.sequence <= i64::MAX {
            result matches Ok(row) && row_stores(event@, row)
        } else {
            result matches Err(error) && error == EngineError::Integer
        },
{
    if event.sequence as u64 > i64::MAX as u64 {
        return Err(EngineError::Integer);
    }
    let payload = match print_json(&event.payload) {
        Ok(text) => text,
        Err(message) => return Err(EngineError::Json(JsonFailure::Reader(message))),
    };
    let metadata = match print_json(&event.metadata) {
        Ok(text) => text,
        Err(message) => return Err(EngineError::Json(JsonFailure::Reader(message))),
    };
    Ok(
        StoredEventRow {
            aggregate_type: event.aggregate_type.clone(),
            aggregate_id: event.aggregate_id.clone(),
            sequence: event.sequence as i64,
            event_type: event.event_type.clone(),
            event_version: event.event_version.clone(),
            payload,
            metadata,
        },
    )
}

/// Reads an event from its row.
pub fn event_from_row(row: &StoredEventRow) -> (result: Result<SerializedEvent, EngineError>)
    ensures
        match event_of_row(*row) {
            Ok(event) => result matches Ok(found) && found@ == event,
            Err(error) => result matches Err(found) && found@ == error,
        },
{
    let stored = match parse_json(row.payload.as_str()) {
        Ok(stored) => stored,
        Err(message) => return Err(EngineError::Json(JsonFailure::Reader(message))),
    };
    let payload = match engine_envelope(&stored) {
        Ok(None) => stored,
        Ok(Some(EnginePayload::OpaqueBytes(_))) => stored,
        Ok(Some(EnginePayload::EscapedJson(value))) => value,
        Err(error) => return Err(error),
    };
    let sequence: usize = match to_count(row.sequence) {
        Ok(sequence) => sequence,
        Err(error) => return Err(error),
    };
    let metadata = match parse_json(row.metadata.as_str()) {
        Ok(metadata) => metadata,
        Err(message) => return Err(EngineError::Json(JsonFailure::Reader(message))),
    };
    Ok(
        SerializedEvent {
            aggregate_id: row.aggregate_id.clone(),
            sequence,
            aggregate_type: row.aggregate_type.clone(),
            event_type: row.event_type.clone(),
            event_version: row.event_version.clone(),
            payload,
            metadata,
        },
    )
}

/// Reads an event of a page from its row.
pub fn loaded_from_row(row: StoredEventRow) -> (result: Result<LoadedEvent, EngineError>)
    ensures
        match loading_error(row) {
            None => result matches Ok(event) && event.sequence == count_of(row.sequence)->Ok_0
                && event.event_type@ == row.event_type@ && event.event_version@
                == row.event_version@ && event.payload@ == loaded_payload_of(row.payload@)->Ok_0,
            Some(error) => result matches Err(found) && found@ == error,
        },
{
    match parse_json(row.metadata.as_str()) {
        Ok(_) => {},
        Err(message) => return Err(EngineError::Json(JsonFailure::Reader(message))),
    }
    let sequence: usize = match to_count(row.sequence) {
        Ok(sequence) => sequence,
        Err(error) => return Err(error),
    };
    let stored = match parse_json(row.payload.as_str()) {
        Ok(stored) => stored,
        Err(message) => return Err(EngineError::Json(JsonFailure::Reader(message))),
    };
    match decode_engine_payload(stored) {
        Ok(payload) => Ok(
            LoadedEvent {
                sequence,
                event_type: row.event_type,
                event_version: row.event_version,
                payload,
            },
        ),
        Err(error) => Err(error),
    }
}

/// Reads a snapshot from its row.
pub fn snapshot_from_row(row: StoredSnapshotRow) -> (result: Result<
    SerializedSnapshot,
    EngineError,
>)
    ensures
        match snapshot_error(row) {
            None => result matches Ok(snapshot) && snapshot.aggregate_id@ == row.aggregate_id@
                && snapshot.aggregate@ == value_of(row.payload@)->Ok_0 && snapshot.current_sequence
                == count_of(row.last_sequence)->Ok_0 && snapshot.current_snapshot == count_of(
                row.snapshot_version,
            )->Ok_0,
            Some(error) => result matches Err(found) && found@ == error,
        },
{
    let aggregate = match parse_json(row.payload.as_str()) {
        Ok(aggregate) => aggregate,
        Err(message) => return Err(EngineError::Json(JsonFailure::Reader(message))),
    };
    let current_sequence: usize = match to_count(row.last_sequence) {
        Ok(count) => count,
        Err(error) => return Err(error),
    };
    let current_snapshot: usize = match to_count(row.snapshot_version) {
        Ok(count) => count,
        Err(error) => return Err(error),
    };
    Ok(
        SerializedSnapshot {
            aggregate_id: row.aggregate_id,
            aggregate,
            current_sequence,
            current_snapshot,
        },
    )
}

/// Whether the row at `index` is the first that holds no event, with this error.
pub open spec fn first_unreadable(
    rows: Seq<StoredEventRow>,
    index: int,
    error: EngineErrorView,
) -> bool {
    &&& 0 <= index < rows.len()
    &&& event_of_row(rows[index]) == Err::<EventView, _>(error)
    &&& forall|i: int| 0 <= i < index ==> event_of_row(#[trigger] rows[i]) is Ok
}

/// Reads events from their rows, in order; the first row that holds none fails them all.
pub fn events_from_rows(rows: Vec<StoredEventRow>) -> (result: Result<
    Vec<SerializedEvent>,
    EngineError,
>)
    ensures
        match result {
            Ok(events) => events@.len() == rows@.len() && forall|i: int|
                0 <= i < rows@.len() ==> event_of_row(#[trigger] rows@[i]) == Ok::<
                    _,
                    EngineErrorView,
                >(events@[i]@),
            Err(error) => exists|i: int| #[trigger] first_unreadable(rows@, i, error@),
        },
{
    let mut events: Vec<SerializedEvent> = Vec::new();
    let mut index: usize = 0;
    while index < rows.len()
        invariant
            index <= rows@.len(),
            events@.len() == index,
            forall|i: int|
                0 <= i < index ==> event_of_row(#[trigger] rows@[i]) == Ok::<_, EngineErrorView>(
                    events@[i]@,
                ),
        decreases rows.len() - index,
    {
        match event_from_row(&rows[index]) {
            Ok(event) => {
                events.push(event);
            },
            Err(error) => {
                assert(first_unreadable(rows@, index as int, error@));
                return Err(error);
            },
        }
        index += 1;
    }
    Ok(events)
}

/// What a replay does with the next row.
pub enum ReplayStep {
    /// Hands the event on.
    Push(SerializedEvent),
    /// Hands the error on, and ends.
    Fail(EngineError),
    /// Ends.
    Finish,
}

/// What a replay does with the next row, if there is one.
pub fn replay_step(row: Option<StoredEventRow>) -> (step: ReplayStep)
    ensures
        match row {
            None => step is Finish,
            Some(row) => match event_of_row(row) {
                Ok(event) => step matches ReplayStep::Push(found) && found@ == event,
                Err(error) => step matches ReplayStep::Fail(found) && found@ == error,
            },
        },
{
    match row {
        None => ReplayStep::Finish,
        Some(row) => match event_from_row(&row) {
            Ok(event) => ReplayStep::Push(event),
            Err(error) => ReplayStep::Fail(error),
        },
    }
}

/// The bounds of a page as they are put to the store: the sequence to start after, and
/// how many events at most.
pub fn page_window(after_sequence: Option<usize>, limit: usize) -> (result: Result<
    (Option<i64>, i64),
    EngineError,
>)
    ensures
        if limit <= i64::MAX && (after_sequence matches Some(after) ==> after <= i64::MAX) {
            result matches Ok(window) && window.1 == limit && match after_sequence {
                Some(after) => window.0 == Some(after as i64),
                None => window.0 is None,
            }
        } else {
            result == Err::<(Option<i64>, i64), _>(EngineError::Integer)
        },
{
    if limit as u64 > i64::MAX as u64 {
        return Err(EngineError::Integer);
    }
    match after_sequence {
        None => Ok((None, limit as i64)),
        Some(after) => {
            if after as u64 > i64::MAX as u64 {
                Err(EngineError::Integer)
            } else {
                Ok((Some(after as i64), limit as i64))
            }
        },
    }
}

/// The bytes of the first `count` events.
pub open spec fn bytes_upto(sizes: Seq<i64>, count: int) -> int
    decreases count,
{
    if count <= 0 {
        0
    } else {
        bytes_upto(sizes, count - 1) + sizes[count - 1]
    }
}

/// Whether every size is a count.
pub open spec fn sizes_are_counts(sizes: Seq<i64>) -> bool {
    forall|i: int| 0 <= i < sizes.len() ==> count_of(#[trigger] sizes[i]) is Ok
}

/// How many events of a page fit the byte limit: the longest run from the first one
/// on. A first event that does not fit alone leaves nothing to return.
pub fn fitting_page_limit(storage_bytes: Vec<i64>, byte_limit: usize) -> (result: Result<
    i64,
    EngineError,
>)
    ensures
        ({
            let sizes = storage_bytes@;
            if !sizes_are_counts(sizes) {
                result == Err::<i64, _>(EngineError::Integer)
            } else if sizes.len() > 0 && sizes[0] > byte_limit {
                result == Err::<i64, _>(
                    EngineError::EventPageTooLarge {
                        observed: sizes[0] as usize,
                        limit: byte_limit,
                    },
                )
            } else {
                match result {
                    Ok(count) => 0 <= count <= sizes.len() && bytes_upto(sizes, count as int)
                        <= byte_limit && (count < sizes.len() ==> bytes_upto(sizes, count + 1)
                        > byte_limit),
                    Err(error) => error is Integer && sizes.len() > i64::MAX,
                }
            }
        }),
{
    let ghost sizes = storage_bytes@;
    let mut index: usize = 0;
    while index < storage_bytes.len()
        invariant
            sizes == storage_bytes@,
            index <= sizes.len(),
            forall|i: int| 0 <= i < index ==> count_of(#[trigger] sizes[i]) is Ok,
        decreases storage_bytes.len() - index,
    {
        let size: i64 = storage_bytes[index];
        if size < 0 || size as u64 > usize::MAX as u64 {
            assert(count_of(sizes[index as int]) is Err);
            return Err(EngineError::Integer);
        }
        index += 1;
    }
    let mut count: usize = 0;
    let mut total: usize = 0;
    while count < storage_bytes.len()
        invariant
            sizes == storage_bytes@,
            sizes_are_counts(sizes),
            count <= sizes.len(),
            total == bytes_upto(sizes, count as int),
            total <= byte_limit,
        ensures
            count <= sizes.len(),
            total == bytes_upto(sizes, count as int),
            total <= byte_limit,
            count < sizes.len() ==> bytes_upto(sizes, count + 1) > byte_limit,
        decreases storage_bytes.len() - count,
    {
        assert(count_of(sizes[count as int]) is Ok);
        let size: usize = storage_bytes[count] as usize;
        match total.checked_add(size) {
            Some(sum) => {
                if sum > byte_limit {
                    break ;
                }
                total = sum;
            },
            None => {
                break ;
            },
        }
        count += 1;
    }
    if count == 0 && storage_bytes.len() > 0 {
        assert(count_of(sizes[0]) is Ok);
        assert(bytes_upto(sizes, 1) == sizes[0]) by {
            reveal_with_fuel(bytes_upto, 2);
        }
        return Err(
            EngineError::EventPageTooLarge {
                observed: storage_bytes[0] as usize,
                limit: byte_limit,
            },
        );
    }
    proof {
        if sizes.len() > 0 {
            assert(bytes_upto(sizes, 1) == sizes[0]) by {
                reveal_with_fuel(bytes_upto, 2);
            }
            lemma_bytes_never_shrink(sizes, 1, count as int);
        }
    }
    if count as u64 > i64::MAX as u64 {
        return Err(EngineError::Integer);
    }
    Ok(count as i64)
}

/// More events take no fewer bytes.
proof fn lemma_bytes_never_shrink(sizes: Seq<i64>, some: int, more: int)
    requires
        sizes_are_counts(sizes),
        0 <= some <= more <= sizes.len(),
    ensures
        bytes_upto(sizes, some) <= bytes_upto(sizes, more),
    decreases more - some,
{
    if some < more {
        lemma_bytes_never_shrink(sizes, some, more - 1);
        assert(count_of(sizes[more - 1]) is Ok);
    }
}

/// A page holds as many events as the byte limit allows: any longer run is over it.
pub proof fn law_pages_are_as_long_as_they_fit(
    sizes: Seq<i64>,
    byte_limit: usize,
    count: int,
    longer: int,
)
    requires
        sizes_are_counts(sizes),
        0 <= count < longer <= sizes.len(),
        bytes_upto(sizes, count + 1) > byte_limit,
    ensures
        bytes_upto(sizes, longer) > byte_limit,
{
    lemma_bytes_never_shrink(sizes, count + 1, longer);
}

/// Why a job store refuses.
#[derive(Debug)]
pub enum SqliteJobError {
    /// A sequence does not fit its column.
    Sequence,
    /// The identity of the job is taken.
    DuplicateEnqueue { job_id: String },
}

/// The stream of a job.
pub open spec fn job_stream(job_id: Seq<char>) -> StreamView {
    StreamView { aggregate_type: JOB_AGGREGATE_TYPE@, aggregate_id: job_id }
}

/// A job event as it is stored: in the stream of its job, at `sequence`, without
/// metadata. `payload` is the event itself in JSON form.
pub open spec fn stored_job_event(
    job_id: Seq<char>,
    sequence: usize,
    event: JobEvent,
    payload: JsonView,
) -> EventView {
    EventView {
        stream: job_stream(job_id),
        sequence,
        event_type: event.name(),
        event_version: JOB_EVENT_VERSION@,
        payload,
        metadata: JsonView::Object(Seq::empty(), Seq::empty()),
    }
}

/// A job event as it is stored.
pub fn job_event(job_id: &str, sequence: usize, event: &JobEvent, payload: Json) -> (stored:
    SerializedEvent)
    ensures
        stored@ == stored_job_event(job_id@, sequence, *event, payload@),
{
    let metadata = Json::Object(Vec::new());
    proof {
        assert(metadata@->Object_0 =~= Seq::empty());
        assert(metadata@->Object_1 =~= Seq::empty());
    }
    SerializedEvent {
        aggregate_id: job_id.to_owned(),
        sequence,
        aggregate_type: JOB_AGGREGATE_TYPE.to_owned(),
        event_type: event.event_type(),
        event_version: event.event_version(),
        payload,
        metadata,
    }
}

/// The sequence of a job's first event.
pub const FIRST_EVENT_SEQ: usize = 1;

/// The first event of a job as it is stored: the one that starts the job's stream.
pub fn first_job_event(job_id: &str, event: &JobEvent, payload: Json) -> (stored: SerializedEvent)
    ensures
        stored@ == stored_job_event(job_id@, FIRST_EVENT_SEQ, *event, payload@),
{
    job_event(job_id, FIRST_EVENT_SEQ, event, payload)
}

/// The version of a job's row after its event was appended; none where the sequence
/// was taken.
pub open spec fn version_appended(sequence: usize, taken: bool) -> Result<
    Option<i64>,
    SqliteJobError,
> {
    if taken {
        Ok(None)
    } else if sequence <= i64::MAX {
        Ok(Some(sequence as i64))
    } else {
        Err(SqliteJobError::Sequence)
    }
}

/// The version of a job's row after its event was appended.
pub fn appended_version(sequence: usize, taken: bool) -> (result: Result<
    Option<i64>,
    SqliteJobError,
>)
    ensures
        result == version_appended(sequence, taken),
{
    if taken {
        return Ok(None);
    }
    if sequence as u64 > i64::MAX as u64 {
        return Err(SqliteJobError::Sequence);
    }
    Ok(Some(sequence as i64))
}

/// The version at which a standalone job's row starts, where its stream was new.
pub fn enqueued_version(appended: Option<i64>, job_id: String) -> (result: Result<
    i64,
    SqliteJobError,
>)
    ensures
        match appended {
            Some(version) => result == Ok::<_, SqliteJobError>(version),
            None => result == Err::<i64, _>(SqliteJobError::DuplicateEnqueue { job_id }),
        },
{
    match appended {
        Some(version) => Ok(version),
        None => Err(SqliteJobError::DuplicateEnqueue { job_id }),
    }
}

/// What a claim writes: an event, and, once that is appended, the job's row.
pub struct ClaimWrite<Won> {
    pub event: JobEvent,
    pub sequence: usize,
    pub state: JobState,
    pub lease_until_ms: Option<i64>,
    /// How the claim ends once both are written.
    pub outcome: ClaimOutcome<Won>,
}

/// What a claim decision writes, or how the claim ends without a write.
pub open spec fn claim_writes<Won>(decision: ClaimDecision<Won>) -> Result<
    ClaimWrite<Won>,
    ClaimOutcome<Won>,
> {
    match decision {
        ClaimDecision::Skip => Err(ClaimOutcome::Skip),
        ClaimDecision::Claim { event, sequence, state, lease_until_ms, won } => Ok(
            ClaimWrite {
                event,
                sequence,
                state,
                lease_until_ms: Some(lease_until_ms),
                outcome: ClaimOutcome::Won(won),
            },
        ),
        ClaimDecision::Abandon { event, sequence, state } => Ok(
            ClaimWrite {
                event,
                sequence,
                state,
                lease_until_ms: None,
                outcome: ClaimOutcome::Abandoned,
            },
        ),
    }
}

/// What a claim decision writes, or how the claim ends without a write.
pub fn claim_write<Won>(decision: ClaimDecision<Won>) -> (result: Result<
    ClaimWrite<Won>,
    ClaimOutcome<Won>,
>)
    ensures
        result == claim_writes(decision),
{
    match decision {
        ClaimDecision::Skip => Err(ClaimOutcome::Skip),
        ClaimDecision::Claim { event, sequence, state, lease_until_ms, won } => Ok(
            ClaimWrite {
                event,
                sequence,
                state,
                lease_until_ms: Some(lease_until_ms),
                outcome: ClaimOutcome::Won(won),
            },
        ),
        ClaimDecision::Abandon { event, sequence, state } => Ok(
            ClaimWrite {
                event,
                sequence,
                state,
                lease_until_ms: None,
                outcome: ClaimOutcome::Abandoned,
            },
        ),
    }
}

/// The row of a job in the queue.
#[derive(Debug)]
pub struct QueueRow {
    /// The sequence of the last event that the row holds.
    pub version: i64,
    pub state: JobState,
    pub lease_until_ms: Option<i64>,
}

/// The row with which a job starts: at the version of its first event, without a lease.
pub open spec fn first_row(state: JobState) -> QueueRow {
    QueueRow { version: FIRST_EVENT_SEQ as i64, state, lease_until_ms: None }
}

/// The row with which a job starts.
pub fn enqueued_row(state: JobState) -> (row: QueueRow)
    ensures
        row == first_row(state),
{
    QueueRow { version: FIRST_EVENT_SEQ as i64, state, lease_until_ms: None }
}

/// What follows on the append of a claim's event: the row to write and how the claim
/// ends; another worker was faster where the sequence was taken.
pub open spec fn claim_follows<Won>(write: ClaimWrite<Won>, appended: Option<i64>) -> (
    Option<QueueRow>,
    ClaimOutcome<Won>,
) {
    match appended {
        Some(version) => (
            Some(QueueRow { version, state: write.state, lease_until_ms: write.lease_until_ms }),
            write.outcome,
        ),
        None => (None, ClaimOutcome::Contended),
    }
}

/// What follows on the append of a claim's event.
pub fn claim_written<Won>(write: ClaimWrite<Won>, appended: Option<i64>) -> (result: (
    Option<QueueRow>,
    ClaimOutcome<Won>,
))
    ensures
        result == claim_follows(write, appended),
{
    match appended {
        Some(version) => (
            Some(QueueRow { version, state: write.state, lease_until_ms: write.lease_until_ms }),
            write.outcome,
        ),
        None => (None, ClaimOutcome::Contended),
    }
}

/// How a transaction is to end.
pub enum TransactionOutcome<Output> {
    Commit(Output),
    Rollback(Output),
}

/// A claim is committed exactly where it wrote something.
pub open spec fn claim_settled<Won>(outcome: ClaimOutcome<Won>) -> TransactionOutcome<
    ClaimOutcome<Won>,
> {
    if outcome is Won || outcome is Abandoned {
        TransactionOutcome::Commit(outcome)
    } else {
        TransactionOutcome::Rollback(outcome)
    }
}

/// A claim is committed exactly where it wrote something.
pub fn claim_settlement<Won>(outcome: ClaimOutcome<Won>) -> (settlement: TransactionOutcome<
    ClaimOutcome<Won>,
>)
    ensures
        settlement == claim_settled(outcome),
{
    match outcome {
        ClaimOutcome::Won(won) => TransactionOutcome::Commit(ClaimOutcome::Won(won)),
        ClaimOutcome::Abandoned => TransactionOutcome::Commit(ClaimOutcome::Abandoned),
        ClaimOutcome::Contended => TransactionOutcome::Rollback(ClaimOutcome::Contended),
        ClaimOutcome::Skip => TransactionOutcome::Rollback(ClaimOutcome::Skip),
    }
}

/// Whether a lease is held, by the number of rows that its renewal found.
pub open spec fn renewal_of(rows_affected: u64) -> LeaseRenewal {
    if rows_affected == 0 {
        LeaseRenewal::Lost
    } else {
        LeaseRenewal::Held
    }
}

/// A lease is held as long as its row is found.
pub fn renewal_outcome(rows_affected: u64) -> (renewal: LeaseRenewal)
    ensures
        renewal == renewal_of(rows_affected),
{
    if rows_affected == 0 {
        LeaseRenewal::Lost
    } else {
        LeaseRenewal::Held
    }
}

/// How a failure of the engine is reported to the aggregate framework.
#[derive(Clone, Copy, Debug, Eq, PartialEq, Structural)]
pub enum PersistenceKind {
    OptimisticLock,
    Deserialization,
    Unknown,
}

/// The kind under which an engine's refusal is reported.
pub fn persistence_kind(error: &EngineError) -> (kind: PersistenceKind)
    ensures
        kind == match *error {
            EngineError::OptimisticLock { .. } => PersistenceKind::OptimisticLock,
            EngineError::Json(_) => PersistenceKind::Deserialization,
            _ => PersistenceKind::Unknown,
        },
{
    match error {
        EngineError::OptimisticLock { .. } => PersistenceKind::OptimisticLock,
        EngineError::Json(_) => PersistenceKind::Deserialization,
        _ => PersistenceKind::Unknown,
    }
}

/// The stream that a commit of a repository writes to: the one of the snapshot, else
/// the one of the first event, else none by the empty name.
pub fn persisted_stream(
    aggregate_type: &str,
    events: &[SerializedEvent],
    snapshot_id: Option<&str>,
) -> (stream: StreamIdentity)
    ensures
        stream@.aggregate_type == aggregate_type@,
        stream@.aggregate_id == match snapshot_id {
            Some(id) => id@,
            None => if events@.len() > 0 {
                events@[0].aggregate_id@
            } else {
                Seq::<char>::empty()
            },
        },
{
    let aggregate_id = match snapshot_id {
        Some(id) => id.to_owned(),
        None => {
            if events.len() > 0 {
                events[0].aggregate_id.clone()
            } else {
                String::new()
            }
        },
    };
    StreamIdentity { aggregate_type: aggregate_type.to_owned(), aggregate_id }
}

/// Whether a stored snapshot is handed out. Where the whole history is kept, a snapshot
/// that cannot be read is handed out too, for the entity is rebuilt from its events;
/// where events may be gone, it is an error, with the reader's message.
pub fn guarded_snapshot(
    policy: CompactionPolicy,
    snapshot: Option<SerializedSnapshot>,
    unreadable: Option<String>,
) -> (result: Result<Option<SerializedSnapshot>, EngineError>)
    ensures
        match (snapshot, policy, unreadable) {
            (Some(_), CompactionPolicy::CompactAfterSnapshot, Some(message)) => result == Err::<
                Option<SerializedSnapshot>,
                _,
            >(EngineError::Json(JsonFailure::Reader(message))),
            _ => result == Ok::<_, EngineError>(snapshot),
        },
{
    let Some(snapshot) = snapshot else {
        return Ok(None);
    };
    match (policy, unreadable) {
        (CompactionPolicy::CompactAfterSnapshot, Some(message)) => Err(
            EngineError::Json(JsonFailure::Reader(message)),
        ),
        _ => Ok(Some(snapshot)),
    }
}

/// What is committed is read back: a native reader gets the event as it was given, and a
/// reader of pages gets its payload as it was given, bytes as bytes. Of a value that is
/// stored with loss, such as one with a fraction, this is not said.
pub proof fn law_committed_events_are_read_back(
    event: EventView,
    encoding: CommitPayloadEncoding,
    row: StoredEventRow,
)
    requires
        stored_payload(event.payload, encoding) is Ok,
        row_stores(stored_event(event, encoding), row),
        encoding is NativeJson ==> lossless(
            stored_event(event, encoding).payload,
            MAX_JSON_DEPTH as nat,
        ),
        lossless(event.metadata, MAX_JSON_DEPTH as nat),
    ensures
        encoding is NativeJson ==> event_of_row(row) == Ok::<_, EngineErrorView>(event),
        loading_error(row) is None,
        count_of(row.sequence) == Ok::<_, EngineErrorView>(event.sequence),
        loaded_payload_of(row.payload@) == Ok::<_, EngineErrorView>(
            match encoding {
                CommitPayloadEncoding::NativeJson => LoadedPayloadView::Json(event.payload),
                CommitPayloadEncoding::OpaqueBytes => LoadedPayloadView::OpaqueBytes(
                    bytes_from(event.payload)->0,
                ),
            },
        ),
{
    law_payloads_are_read_back(event.payload, encoding);
    if encoding is OpaqueBytes {
        lemma_byte_envelopes_are_lossless(bytes_from(event.payload)->0);
    }
    assert(value_of(row.payload@) == Ok::<_, EngineErrorView>(
        stored_event(event, encoding).payload,
    ));
    assert(value_of(row.metadata@) == Ok::<_, EngineErrorView>(event.metadata));
}

/// A snapshot that a commit writes is read back as it was given, with the sequence of the
/// last event that it covers and with its version, where it is stored without loss.
pub proof fn law_committed_snapshots_are_read_back(
    update: SnapshotUpdate,
    events: Seq<EventView>,
    row: StoredSnapshotRow,
)
    requires
        snapshot_stored(Some(update), events),
        lossless(update.aggregate@, MAX_JSON_DEPTH as nat),
        snapshot_action(update.aggregate@, update.snapshot_version, events)
            == (CommitActionView::WriteSnapshot {
            last_sequence: row.last_sequence,
            snapshot_version: row.snapshot_version,
            aggregate: row.payload@,
        }),
    ensures
        snapshot_error(row) is None,
        value_of(row.payload@) == Ok::<_, EngineErrorView>(update.aggregate@),
        count_of(row.last_sequence) == Ok::<_, EngineErrorView>(events.last().sequence),
        count_of(row.snapshot_version) == Ok::<_, EngineErrorView>(update.snapshot_version),
{
}

/// A job starts with its first event and with a row at the version of that event. The
/// claim that follows on them, and no later one, is the job's first run.
pub proof fn law_first_claims_follow_on_the_first_row(
    job_id: Seq<char>,
    first: JobEvent,
    payload: JsonView,
    start: JobState,
    read: Option<ClaimRead>,
    decoded: Option<Lifecycle<JobState>>,
    worker: WorkerId,
    now_ms: i64,
    lease_ms: i64,
    max_claims: u32,
    claim_id: ClaimId,
    fallback: i64,
    decision: ClaimDecision<WonClaim>,
    ctx: JobContext,
)
    requires
        claim_fits(read, decoded, now_ms, lease_ms),
        planned(
            read,
            decoded,
            worker,
            now_ms,
            lease_ms,
            max_claims,
            claim_id,
            fallback,
            decision,
        ),
        decision matches ClaimDecision::Claim { won, .. } && ctx.claim_seq == won.claim_seq,
    ensures
        first_row(start).version == stored_job_event(
            job_id,
            FIRST_EVENT_SEQ,
            first,
            payload,
        ).sequence,
        version_appended(FIRST_EVENT_SEQ, false) == Ok::<_, SqliteJobError>(
            Some(first_row(start).version),
        ),
        FIRST_CLAIM_SEQ == FIRST_EVENT_SEQ + 1,
        ctx.first() <==> read->0.version == first_row(start).version,
{
}

/// A claim that may be made writes its event to the stream of the job itself, right after
/// the last event that the row held. Where that place is free, the row then holds what the
/// event makes of the job, at the version of the event, and the claim that was won carries
/// that version. Where the place is taken, nothing is written and nothing is committed.
pub proof fn law_claims_move_their_own_job(
    job_id: Seq<char>,
    read: Option<ClaimRead>,
    decoded: Option<Lifecycle<JobState>>,
    worker: WorkerId,
    now_ms: i64,
    lease_ms: i64,
    max_claims: u32,
    claim_id: ClaimId,
    fallback: i64,
    decision: ClaimDecision<WonClaim>,
    payload: JsonView,
    taken: bool,
)
    requires
        claim_fits(read, decoded, now_ms, lease_ms),
        planned(
            read,
            decoded,
            worker,
            now_ms,
            lease_ms,
            max_claims,
            claim_id,
            fallback,
            decision,
        ),
    ensures
        match claim_writes(decision) {
            Err(outcome) => decision is Skip && claim_settled(outcome) is Rollback,
            Ok(write) => {
                let stored = stored_job_event(job_id, write.sequence, write.event, payload);
                &&& stored.stream == job_stream(job_id)
                &&& stored.sequence == read->0.version + 1
                &&& state_evolved(claimable(read, decoded, now_ms)->0, write.event) == Some(
                    write.state,
                )
                &&& version_appended(write.sequence, taken) matches Ok(appended)
                &&& if taken {
                    let follows = claim_follows(write, appended);
                    follows.0 is None && claim_settled(follows.1) is Rollback
                } else {
                    let follows = claim_follows(write, appended);
                    &&& follows.0 matches Some(row)
                    &&& row.version == stored.sequence
                    &&& row.state == write.state
                    &&& follows.1 matches ClaimOutcome::Won(won) ==> won.claim_seq == row.version
                        && row.lease_until_ms == Some((now_ms + lease_ms) as i64)
                    &&& follows.1 is Won || row.lease_until_ms is None
                    &&& claim_settled(follows.1) == TransactionOutcome::Commit(follows.1)
                }
            },
        },
{
}

/// A stored number is a count exactly where it is not negative and fits, and then it is
/// that very number.
pub proof fn law_counts_are_kept(value: i64, result: Result<usize, EngineError>)
    requires
        call_ensures(to_count, (value,), result),
    ensures
        match result {
            Ok(count) => count == value,
            Err(error) => error is Integer && (value < 0 || value > usize::MAX),
        },
{
}

/// Whether the value is an object whose only key is the engine's own.
pub open spec fn under_the_key(value: JsonView) -> bool {
    value matches JsonView::Object(keys, _) && keys.len() == 1 && keys[0] == ENGINE_PAYLOAD_KEY@
}

/// An event that is read from a row is the row's own: nothing of it comes from anywhere
/// else, and a sequence that is no count is refused.
pub proof fn law_events_are_read_as_they_stand(
    row: StoredEventRow,
    result: Result<SerializedEvent, EngineError>,
)
    requires
        call_ensures(event_from_row, (&row,), result),
    ensures
        match result {
            Ok(event) => {
                &&& event.aggregate_type@ == row.aggregate_type@
                &&& event.aggregate_id@ == row.aggregate_id@
                &&& event.sequence == row.sequence
                &&& event.event_type@ == row.event_type@
                &&& event.event_version@ == row.event_version@
                &&& json_parsed(row.metadata@) == Ok::<_, Seq<char>>(event.metadata@)
                &&& json_parsed(row.payload@) is Ok
                &&& !under_the_key(json_parsed(row.payload@)->Ok_0) ==> json_parsed(row.payload@)
                    == Ok::<_, Seq<char>>(event.payload@)
            },
            Err(_) => json_parsed(row.payload@) is Err || json_parsed(row.metadata@) is Err
                || row.sequence < 0 || row.sequence > usize::MAX || under_the_key(
                json_parsed(row.payload@)->Ok_0,
            ),
        },
{
}

/// An event of a page is read from its row as it stands.
pub proof fn law_page_events_are_read_as_they_stand(
    row: StoredEventRow,
    result: Result<LoadedEvent, EngineError>,
)
    requires
        call_ensures(loaded_from_row, (row,), result),
    ensures
        match result {
            Ok(event) => {
                &&& event.sequence == row.sequence
                &&& event.event_type@ == row.event_type@
                &&& event.event_version@ == row.event_version@
                &&& json_parsed(row.metadata@) is Ok
                &&& json_parsed(row.payload@) is Ok
                &&& !under_the_key(json_parsed(row.payload@)->Ok_0) ==> event.payload@
                    == LoadedPayloadView::Json(json_parsed(row.payload@)->Ok_0)
            },
            Err(_) => json_parsed(row.payload@) is Err || json_parsed(row.metadata@) is Err
                || row.sequence < 0 || row.sequence > usize::MAX || under_the_key(
                json_parsed(row.payload@)->Ok_0,
            ),
        },
{
}

/// A snapshot is read from its row as it stands, with the sequence that it covers.
pub proof fn law_snapshots_are_read_as_they_stand(
    row: StoredSnapshotRow,
    result: Result<SerializedSnapshot, EngineError>,
)
    requires
        call_ensures(snapshot_from_row, (row,), result),
    ensures
        match result {
            Ok(snapshot) => {
                &&& snapshot.aggregate_id@ == row.aggregate_id@
                &&& snapshot.current_sequence == row.last_sequence
                &&& snapshot.current_snapshot == row.snapshot_version
                &&& json_parsed(row.payload@) == Ok::<_, Seq<char>>(snapshot.aggregate@)
            },
            Err(_) => json_parsed(row.payload@) is Err || row.last_sequence < 0
                || row.last_sequence > usize::MAX || row.snapshot_version < 0
                || row.snapshot_version > usize::MAX,
        },
{
}

/// Rows that are read together are read as one by one, in their order; so are rows that
/// are replayed. The replay ends with its rows, and at the first that cannot be read.
pub proof fn law_rows_are_read_alike(
    rows: Vec<StoredEventRow>,
    all: Result<Vec<SerializedEvent>, EngineError>,
    index: int,
    one: Result<SerializedEvent, EngineError>,
    step: ReplayStep,
    end: ReplayStep,
)
    requires
        call_ensures(events_from_rows, (rows,), all),
        0 <= index < rows@.len(),
        call_ensures(event_from_row, (&rows@[index],), one),
        call_ensures(replay_step, (Some(rows@[index]),), step),
        call_ensures(replay_step, (None,), end),
    ensures
        end is Finish,
        match one {
            Ok(event) => step matches ReplayStep::Push(found) && found@ == event@,
            Err(error) => step matches ReplayStep::Fail(found) && found@ == error@,
        },
        one is Err ==> all is Err,
        all matches Ok(events) ==> events@.len() == rows@.len() && (one matches Ok(event)
            && events@[index]@ == event@),
        rows@.len() == 1 ==> match (one, all) {
            (Err(error), Err(found)) => found@ == error@,
            (Ok(_), Ok(_)) => true,
            _ => false,
        },
{
    if all is Ok {
        assert(event_of_row(rows@[index]) == Ok::<_, EngineErrorView>(all->Ok_0@[index]@));
    }
    if rows@.len() == 1 && all is Err {
        let i = choose|i: int| #[trigger] first_unreadable(rows@, i, all->Err_0@);
        assert(i == 0);
    }
}

/// An event that fits its column is written as it is, and is read back from what was
/// written, where it is stored without loss and is no envelope of the engine's.
pub proof fn law_written_events_are_read_back(
    event: SerializedEvent,
    written: Result<StoredEventRow, EngineError>,
    read: Result<SerializedEvent, EngineError>,
)
    requires
        call_ensures(row_from_event, (&event,), written),
        lossless(event.payload@, MAX_JSON_DEPTH as nat),
        lossless(event.metadata@, MAX_JSON_DEPTH as nat),
        !reserves(event.payload@),
        written is Ok,
        call_ensures(event_from_row, (&written->Ok_0,), read),
    ensures
        read matches Ok(found) && found@ == event@,
{
    if let JsonView::Object(keys, _) = event.payload@ {
        if keys.len() == 1 {
            assert(keys[0] != ENGINE_PAYLOAD_KEY@);
        }
    }
}

/// An event has a row exactly where its sequence fits the column.
pub proof fn law_events_have_rows_where_they_fit(
    event: SerializedEvent,
    written: Result<StoredEventRow, EngineError>,
)
    requires
        call_ensures(row_from_event, (&event,), written),
    ensures
        match written {
            Ok(row) => {
                &&& row.sequence == event.sequence
                &&& row.aggregate_type@ == event.aggregate_type@
                &&& row.aggregate_id@ == event.aggregate_id@
                &&& row.event_type@ == event.event_type@
                &&& row.event_version@ == event.event_version@
            },
            Err(error) => error is Integer && event.sequence > i64::MAX,
        },
{
}

/// A page is asked for as it is: after the sequence that was named, and with the limit that
/// was given; only numbers that the store cannot take are refused.
pub proof fn law_pages_are_asked_for_as_they_are(
    after_sequence: Option<usize>,
    limit: usize,
    result: Result<(Option<i64>, i64), EngineError>,
)
    requires
        call_ensures(page_window, (after_sequence, limit), result),
    ensures
        match result {
            Ok((after, most)) => {
                &&& most == limit
                &&& after is Some <==> after_sequence is Some
                &&& after_sequence matches Some(sequence) ==> after->0 == sequence
            },
            Err(error) => error is Integer && (limit > i64::MAX || (after_sequence is Some
                && after_sequence->0 > i64::MAX)),
        },
{
}

/// The bytes of a page are those of its events, one by one.
pub proof fn law_page_bytes_add_up(sizes: Seq<i64>, count: int)
    requires
        0 <= count < sizes.len(),
    ensures
        bytes_upto(sizes, 0) == 0,
        bytes_upto(sizes, count + 1) == bytes_upto(sizes, count) + sizes[count],
{
}

/// A page takes every event that still fits and stops before the first that does not; it
/// takes at least one, unless there is none or the first alone is too large, which is told
/// with its size.
pub proof fn law_pages_take_what_fits(
    sizes: Vec<i64>,
    byte_limit: usize,
    result: Result<i64, EngineError>,
)
    requires
        call_ensures(fitting_page_limit, (sizes, byte_limit), result),
    ensures
        match result {
            Ok(count) => {
                &&& 0 <= count <= sizes@.len()
                &&& sizes@.len() > 0 ==> count > 0
                &&& bytes_upto(sizes@, count as int) <= byte_limit
                &&& count < sizes@.len() ==> bytes_upto(sizes@, count as int) + sizes@[count as int]
                    > byte_limit
            },
            Err(EngineError::EventPageTooLarge { observed, limit }) => {
                &&& sizes@.len() > 0
                &&& observed == sizes@[0]
                &&& observed > byte_limit
                &&& limit == byte_limit
            },
            Err(error) => error is Integer && (sizes@.len() > i64::MAX || exists|i: int|
                0 <= i < sizes@.len() && ((#[trigger] sizes@[i]) < 0 || sizes@[i] > usize::MAX)),
        },
{
    let all = sizes@;
    if result is Ok {
        let count = result->Ok_0 as int;
        if count == 0 && all.len() > 0 {
            assert(bytes_upto(all, 1) == all[0]) by {
                reveal_with_fuel(bytes_upto, 2);
            }
        }
        if count < all.len() {
            law_page_bytes_add_up(all, count);
        }
    } else if !sizes_are_counts(all) {
        let i = choose|i: int| 0 <= i < all.len() && !(count_of(#[trigger] all[i]) is Ok);
        assert(all[i] < 0 || all[i] > usize::MAX);
    } else if all.len() > 0 {
        assert(count_of(all[0]) is Ok);
    }
}

/// A job event is stored in its job's own stream, at its place, under its own name and
/// with its payload.
pub proof fn law_job_events_are_stored_under_their_job(
    job_id: &str,
    sequence: usize,
    event: JobEvent,
    payload: Json,
    stored: SerializedEvent,
    first: SerializedEvent,
)
    requires
        call_ensures(job_event, (job_id, sequence, &event, payload), stored),
        call_ensures(first_job_event, (job_id, &event, payload), first),
    ensures
        stored.aggregate_type@ == "job"@,
        stored.aggregate_id@ == job_id@,
        stored.sequence == sequence,
        stored.event_type@ == event.name(),
        stored.payload@ == payload@,
        first.sequence == 1,
        sequence == 1 ==> first@ == stored@,
{
}

/// A job's row starts at the version of its first event, in the state that it is given,
/// and free of any lease.
pub proof fn law_rows_start_free(state: JobState, row: QueueRow)
    requires
        call_ensures(enqueued_row, (state,), row),
    ensures
        row.version == 1,
        row.state == state,
        row.lease_until_ms is None,
{
}

/// The row of a job moves to the sequence of the event that was appended, and stays where
/// the sequence was taken; the stream of a new job must not have begun.
pub proof fn law_rows_follow_their_events(
    sequence: usize,
    taken: bool,
    job_id: String,
    appended: Result<Option<i64>, SqliteJobError>,
    version: Result<i64, SqliteJobError>,
)
    requires
        call_ensures(appended_version, (sequence, taken), appended),
        appended matches Ok(found) && call_ensures(enqueued_version, (found, job_id), version),
    ensures
        appended == Ok::<Option<i64>, SqliteJobError>(None) <==> taken,
        appended matches Ok(Some(found)) ==> found == sequence && version == Ok::<
            _,
            SqliteJobError,
        >(found),
        taken ==> version == Err::<i64, _>(SqliteJobError::DuplicateEnqueue { job_id }),
{
}

/// What a claim decided is written as it was decided: its event at its sequence, then its
/// state and its lease; a job that is given up keeps no lease, and where nothing was
/// decided nothing is written.
pub proof fn law_claims_are_written_as_decided<Won>(
    decision: ClaimDecision<Won>,
    result: Result<ClaimWrite<Won>, ClaimOutcome<Won>>,
)
    requires
        call_ensures(claim_write::<Won>, (decision,), result),
    ensures
        match (decision, result) {
            (
                ClaimDecision::Claim { event, sequence, state, lease_until_ms, won },
                Ok(write),
            ) => write.event == event && write.sequence == sequence && write.state == state
                && write.lease_until_ms == Some(lease_until_ms) && write.outcome
                == ClaimOutcome::Won(won),
            (ClaimDecision::Abandon { event, sequence, state }, Ok(write)) => write.event == event
                && write.sequence == sequence && write.state == state
                && write.lease_until_ms is None && write.outcome is Abandoned,
            (ClaimDecision::Skip, Err(outcome)) => outcome is Skip,
            _ => false,
        },
{
}

/// A claim changes the row of its job exactly where its event was appended, and only a
/// claim that wrote something is committed; a claim whose place was taken is contended.
pub proof fn law_contended_claims_write_nothing<Won>(
    write: ClaimWrite<Won>,
    appended: Option<i64>,
    result: (Option<QueueRow>, ClaimOutcome<Won>),
    settlement: TransactionOutcome<ClaimOutcome<Won>>,
)
    requires
        call_ensures(claim_written::<Won>, (write, appended), result),
        call_ensures(claim_settlement::<Won>, (result.1,), settlement),
    ensures
        match (appended, result.0) {
            (Some(version), Some(row)) => row.version == version && row.state == write.state
                && row.lease_until_ms == write.lease_until_ms && result.1 == write.outcome,
            (None, None) => result.1 is Contended && settlement
                == TransactionOutcome::Rollback(result.1),
            _ => false,
        },
        write.outcome is Won || write.outcome is Abandoned ==> (settlement is Commit
            <==> appended is Some),
        match settlement {
            TransactionOutcome::Commit(outcome) => outcome == result.1,
            TransactionOutcome::Rollback(outcome) => outcome == result.1,
        },
{
}

/// A lease counts as held exactly where its renewal found a row.
pub proof fn law_renewals_that_find_nothing_are_lost(rows_affected: u64, renewal: LeaseRenewal)
    requires
        call_ensures(renewal_outcome, (rows_affected,), renewal),
    ensures
        renewal is Lost <==> rows_affected == 0,
{
}

/// A conflict of writers, and nothing else, is reported as one; a text that cannot be read
/// is reported as such.
pub proof fn law_conflicts_are_reported_as_conflicts(error: EngineError, kind: PersistenceKind)
    requires
        call_ensures(persistence_kind, (&error,), kind),
    ensures
        kind is OptimisticLock <==> error is OptimisticLock,
        kind is Deserialization <==> error is Json,
{
}

/// A commit goes to the stream of the snapshot that it names, else to that of its events,
/// always under the type that it was given.
pub proof fn law_commits_go_to_their_stream(
    aggregate_type: &str,
    events: &[SerializedEvent],
    snapshot_id: Option<&str>,
    stream: StreamIdentity,
)
    requires
        call_ensures(persisted_stream, (aggregate_type, events, snapshot_id), stream),
    ensures
        stream.aggregate_type@ == aggregate_type@,
        snapshot_id matches Some(id) ==> stream.aggregate_id@ == id@,
        snapshot_id is None && events@.len() > 0 ==> stream.aggregate_id@
            == events@[0].aggregate_id@,
{
}

/// A snapshot is handed out as it is or not at all: it is withheld only where it cannot be
/// read and the events that it stands for may be gone.
pub proof fn law_unreadable_snapshots_are_withheld_where_events_are_gone(
    policy: CompactionPolicy,
    snapshot: Option<SerializedSnapshot>,
    unreadable: Option<String>,
    result: Result<Option<SerializedSnapshot>, EngineError>,
)
    requires
        call_ensures(guarded_snapshot, (policy, snapshot, unreadable), result),
    ensures
        result matches Ok(found) ==> found == snapshot,
        result is Err <==> policy is CompactAfterSnapshot && snapshot is Some && unreadable is Some,
        result matches Err(error) ==> (error matches EngineError::Json(JsonFailure::Reader(message))
            && Some(message) == unreadable),
{
}

} // verus!
