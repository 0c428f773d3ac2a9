//! Commits: what is checked before anything is written, and the script of storage
//! actions that a transaction performs.

use vstd::prelude::*;

use crate::engine::{
    bytes_from, bytes_of_json, encode_engine_payload, event_views, is_byte,
    law_payloads_are_read_back, loaded_payload, reserves, reserves_engine_payload, stored_payload,
    CommitPayloadEncoding, EngineError, EngineErrorView, EnginePayload, EventView, JsonFailure,
    LoadedPayloadView, SerializedEvent, SnapshotUpdate, StreamIdentity, StreamView,
};
use crate::identity::ulid_text;
use crate::job::{
    enqueued, enqueued_event, pending_seed, state_originated, EnqueueRequest, JobEvent, JobId,
    JobKind, JobState, JobStoreError,
};
use crate::json::{json_printed, print_json, refuse_byte_array, text_stores, Json, JsonView};
use crate::storage::{enqueued_row, first_row, QueueRow};
use crate::time::representable;

verus! {

/// A durable job to commit with domain events.
pub struct JobSeed(pub EnqueueRequest);

impl JobSeed {
    pub fn new<Text: Into<String>>(
        job_id: JobId,
        kind: Text,
        payload: serde_json::Value,
        run_at_ms: i64,
    ) -> (seed: Self)
        ensures
            seed.0.job_id == job_id,
            call_ensures(Text::into, (kind,), (seed.0).kind.0),
            seed.0.payload == payload,
            seed.0.run_at_ms == run_at_ms,
    {
        Self(EnqueueRequest { job_id, kind: JobKind::new(kind), payload, run_at_ms })
    }
}

/// What one commit is to store: events of one stream, and with them a snapshot and jobs.
pub struct CommitRequest<'events> {
    pub stream: StreamIdentity,
    pub events: &'events [SerializedEvent],
    pub snapshot: Option<SnapshotUpdate>,
    pub jobs: Vec<EnqueueRequest>,
    pub payload_encoding: CommitPayloadEncoding,
}

impl<'events> CommitRequest<'events> {
    /// A commit of events alone.
    pub fn new(stream: StreamIdentity, events: &'events [SerializedEvent]) -> (request: Self)
        ensures
            request.stream == stream,
            request.events == events,
            request.snapshot is None,
            request.jobs@ == Seq::<EnqueueRequest>::empty(),
            request.payload_encoding is NativeJson,
    {
        Self {
            stream,
            events,
            snapshot: None,
            jobs: Vec::new(),
            payload_encoding: CommitPayloadEncoding::NativeJson,
        }
    }

    /// The commit, with payloads that are arrays of bytes.
    #[must_use]
    pub fn with_opaque_payloads(self) -> (request: Self)
        ensures
            request == (CommitRequest {
                payload_encoding: CommitPayloadEncoding::OpaqueBytes,
                ..self
            }),
    {
        Self { payload_encoding: CommitPayloadEncoding::OpaqueBytes, ..self }
    }

    /// The commit, with a snapshot that its events are covered by; there must be some.
    pub fn with_snapshot(self, snapshot: SnapshotUpdate) -> (result: Result<Self, EngineError>)
        ensures
            self.events@.len() == 0 ==> result == Err::<Self, _>(EngineError::EmptySnapshotUpdate),
            self.events@.len() > 0 ==> result == Ok::<_, EngineError>(
                CommitRequest { snapshot: Some(snapshot), ..self },
            ),
    {
        if self.events.len() == 0 {
            return Err(EngineError::EmptySnapshotUpdate);
        }
        Ok(Self { snapshot: Some(snapshot), ..self })
    }

    /// The commit, with these jobs and no others.
    #[must_use]
    pub fn with_jobs(self, jobs: Vec<EnqueueRequest>) -> (request: Self)
        ensures
            request == (CommitRequest { jobs, ..self }),
    {
        Self { jobs, ..self }
    }

    /// The commit, with one job more.
    #[must_use]
    pub fn with_job(self, job: JobSeed) -> (request: Self)
        ensures
            request.jobs@ == self.jobs@.push(job.0),
            request == (CommitRequest { jobs: request.jobs, ..self }),
    {
        let mut jobs = self.jobs;
        jobs.push(job.0);
        Self { jobs, ..self }
    }
}

/// What the transaction of a commit is to do.
#[derive(Debug)]
pub enum CommitAction {
    /// Read the stream's version; a version above the expected one ends the commit.
    CheckVersion { expected_version: usize },
    /// Append the events to the stream.
    Append { expected_version: usize, events: Vec<SerializedEvent> },
    /// Put the snapshot in place of an earlier one.
    WriteSnapshot { last_sequence: i64, snapshot_version: i64, aggregate: String },
    /// Append the first event of a job's stream, which must not exist.
    AppendJob { job_id: String, event: JobEvent },
    /// Add the job's queue row, which must not exist.
    WriteQueueRow { job_id: String, row: QueueRow },
    /// Commit the transaction.
    Commit,
    /// Roll the transaction back with the error.
    Abort(EngineError),
}

/// What the transaction of a commit is to do, as a view.
pub enum CommitActionView {
    CheckVersion { expected_version: usize },
    Append { expected_version: usize, events: Seq<EventView> },
    WriteSnapshot { last_sequence: i64, snapshot_version: i64, aggregate: Seq<char> },
    AppendJob { job_id: Seq<char>, event: JobEvent },
    WriteQueueRow { job_id: Seq<char>, row: QueueRow },
    Commit,
    Abort(EngineErrorView),
}

impl View for CommitAction {
    type V = CommitActionView;

    open spec fn view(&self) -> CommitActionView {
        match self {
            CommitAction::CheckVersion { expected_version } => CommitActionView::CheckVersion {
                expected_version: *expected_version,
            },
            CommitAction::Append { expected_version, events } => CommitActionView::Append {
                expected_version: *expected_version,
                events: event_views(events@),
            },
            CommitAction::WriteSnapshot { last_sequence, snapshot_version, aggregate } => {
                CommitActionView::WriteSnapshot {
                    last_sequence: *last_sequence,
                    snapshot_version: *snapshot_version,
                    aggregate: aggregate@,
                }
            },
            CommitAction::AppendJob { job_id, event } => CommitActionView::AppendJob {
                job_id: job_id@,
                event: *event,
            },
            CommitAction::WriteQueueRow { job_id, row } => CommitActionView::WriteQueueRow {
                job_id: job_id@,
                row: *row,
            },
            CommitAction::Commit => CommitActionView::Commit,
            CommitAction::Abort(error) => CommitActionView::Abort(error@),
        }
    }
}

/// The views of a script.
pub open spec fn script_views(script: Seq<CommitAction>) -> Seq<CommitActionView> {
    script.map_values(|action: CommitAction| action@)
}

/// Whether the event at `index` is the first that belongs to another stream.
pub open spec fn first_foreign(stream: StreamView, events: Seq<EventView>, index: int) -> bool {
    &&& 0 <= index < events.len()
    &&& events[index].stream != stream
    &&& forall|i: int| 0 <= i < index ==> (#[trigger] events[i]).stream == stream
}

/// Whether the event at `index` is the first whose sequence does not follow on
/// `expected` and the events before it.
pub open spec fn first_gap(expected: int, events: Seq<EventView>, index: int) -> bool {
    &&& 0 <= index < events.len()
    &&& events[index].sequence != expected + index + 1
    &&& forall|i: int| 0 <= i < index ==> (#[trigger] events[i]).sequence == expected + i + 1
}

/// Whether the sequences of the events follow on `expected` without a gap.
pub open spec fn contiguous(expected: int, events: Seq<EventView>) -> bool {
    forall|i: int| 0 <= i < events.len() ==> (#[trigger] events[i]).sequence == expected + i + 1
}

/// Whether the event at `index` is the first whose payload cannot be stored.
pub open spec fn first_unstorable(
    events: Seq<EventView>,
    encoding: CommitPayloadEncoding,
    index: int,
) -> bool {
    &&& 0 <= index < events.len()
    &&& stored_payload(events[index].payload, encoding) is Err
    &&& forall|i: int|
        0 <= i < index ==> stored_payload((#[trigger] events[i]).payload, encoding) is Ok
}

/// The event with its payload in stored form.
pub open spec fn stored_event(event: EventView, encoding: CommitPayloadEncoding) -> EventView {
    EventView { payload: stored_payload(event.payload, encoding)->Ok_0, ..event }
}

/// The events with their payloads in stored form.
pub open spec fn stored_events(
    events: Seq<EventView>,
    encoding: CommitPayloadEncoding,
) -> Seq<EventView> {
    Seq::new(events.len(), |i: int| stored_event(events[i], encoding))
}

/// Accepts events of one stream.
pub fn validate_event_stream(stream: &StreamIdentity, events: &[SerializedEvent]) -> (result:
    Result<(), EngineError>)
    ensures
        match result {
            Ok(()) => forall|i: int|
                0 <= i < events@.len() ==> (#[trigger] event_views(events@)[i]).stream == stream@,
            Err(error) => exists|i: int| #[trigger]
                first_foreign(stream@, event_views(events@), i) && error@
                    == (EngineErrorView::StreamIdentityMismatch {
                    expected: stream@,
                    actual: event_views(events@)[i].stream,
                }),
        },
{
    let ghost views = event_views(events@);
    let mut index: usize = 0;
    while index < events.len()
        invariant
            views == event_views(events@),
            index <= events@.len(),
            forall|i: int| 0 <= i < index ==> (#[trigger] views[i]).stream == stream@,
        decreases events.len() - index,
    {
        assert(views[index as int] == events@[index as int]@);
        if !stream.matches(&events[index]) {
            assert(first_foreign(stream@, views, index as int));
            return Err(
                EngineError::StreamIdentityMismatch {
                    expected: stream.clone(),
                    actual: StreamIdentity::from_event(&events[index]),
                },
            );
        }
        index += 1;
    }
    Ok(())
}

/// The version that the events follow on, if there are events and they have no gap.
pub fn validate_event_sequences(events: &[SerializedEvent]) -> (result: Result<
    Option<usize>,
    EngineError,
>)
    ensures
        sequences_checked(event_views(events@), result),
{
    let ghost views = event_views(events@);
    if events.len() == 0 {
        return Ok(None);
    }
    assert(views[0] == events@[0]@);
    let first: usize = events[0].sequence;
    if first == 0 {
        return Err(EngineError::NonContiguousSequences { expected_version: 0, offending: first });
    }
    let expected_version: usize = first - 1;
    let mut index: usize = 0;
    while index < events.len()
        invariant
            views == event_views(events@),
            0 < events@.len(),
            views[0].sequence == expected_version + 1,
            index <= events@.len(),
            forall|i: int|
                0 <= i < index ==> (#[trigger] views[i]).sequence == expected_version + i + 1,
        decreases events.len() - index,
    {
        assert(views[index as int] == events@[index as int]@);
        let sequence: usize = events[index].sequence;
        let follows = match expected_version.checked_add(index) {
            Some(before) => match before.checked_add(1) {
                Some(expected) => sequence == expected,
                None => false,
            },
            None => false,
        };
        if !follows {
            assert((views[0].sequence - 1) as usize == expected_version);
            assert(first_gap(expected_version as int, views, index as int));
            assert(views[index as int].sequence == sequence);
            return Err(
                EngineError::NonContiguousSequences { expected_version, offending: sequence },
            );
        }
        index += 1;
    }
    Ok(Some(expected_version))
}

/// Whether `result` is what the sequences of the events allow.
pub open spec fn sequences_checked(
    events: Seq<EventView>,
    result: Result<Option<usize>, EngineError>,
) -> bool {
    if events.len() == 0 {
        result == Ok::<Option<usize>, EngineError>(None)
    } else if events[0].sequence == 0 {
        result == Err::<Option<usize>, _>(
            EngineError::NonContiguousSequences { expected_version: 0, offending: 0 },
        )
    } else {
        let expected = (events[0].sequence - 1) as usize;
        match result {
            Ok(version) => version == Some(expected) && contiguous(expected as int, events),
            Err(error) => exists|i: int| #[trigger]
                first_gap(expected as int, events, i) && error
                    == (EngineError::NonContiguousSequences {
                    expected_version: expected,
                    offending: events[i].sequence,
                }),
        }
    }
}

/// The event with another payload.
pub fn clone_event_with_payload(event: &SerializedEvent, payload: Json) -> (copy: SerializedEvent)
    ensures
        copy@ == (EventView { payload: payload@, ..event@ }),
{
    SerializedEvent {
        aggregate_type: event.aggregate_type.clone(),
        aggregate_id: event.aggregate_id.clone(),
        sequence: event.sequence,
        event_type: event.event_type.clone(),
        event_version: event.event_version.clone(),
        payload,
        metadata: event.metadata.duplicate(),
    }
}

/// A payload in stored form.
pub fn store_payload(payload: &Json, encoding: CommitPayloadEncoding) -> (result: Result<
    Json,
    EngineError,
>)
    ensures
        match stored_payload(payload@, encoding) {
            Ok(expected) => result matches Ok(found) && found@ == expected,
            Err(error) => result matches Err(found) && found@ == error,
        },
{
    match encoding {
        CommitPayloadEncoding::NativeJson => {
            if reserves_engine_payload(payload) {
                Ok(encode_engine_payload(EnginePayload::EscapedJson(payload.duplicate())))
            } else {
                Ok(payload.duplicate())
            }
        },
        CommitPayloadEncoding::OpaqueBytes => match bytes_of_json(payload) {
            Some(bytes) => Ok(encode_engine_payload(EnginePayload::OpaqueBytes(bytes))),
            None => Err(EngineError::Json(JsonFailure::Reader(refuse_byte_array(payload)))),
        },
    }
}

/// The events with their payloads in stored form, or the error of the first payload
/// that has none.
pub fn prepare_event_payloads(events: &[SerializedEvent], encoding: CommitPayloadEncoding) -> (result:
    Result<Vec<SerializedEvent>, EngineError>)
    ensures
        match result {
            Ok(prepared) => event_views(prepared@) == stored_events(event_views(events@), encoding)
                && forall|i: int|
                0 <= i < events@.len() ==> stored_payload(
                    (#[trigger] event_views(events@)[i]).payload,
                    encoding,
                ) is Ok,
            Err(error) => exists|i: int| #[trigger]
                first_unstorable(event_views(events@), encoding, i) && Err::<JsonView, _>(error@)
                    == stored_payload(event_views(events@)[i].payload, encoding),
        },
{
    let ghost views = event_views(events@);
    let mut prepared: Vec<SerializedEvent> = Vec::new();
    let mut index: usize = 0;
    while index < events.len()
        invariant
            views == event_views(events@),
            index <= events@.len(),
            prepared@.len() == index,
            forall|i: int|
                0 <= i < index ==> stored_payload((#[trigger] views[i]).payload, encoding) is Ok,
            forall|i: int|
                0 <= i < index ==> (#[trigger] prepared@[i])@ == stored_event(views[i], encoding),
        decreases events.len() - index,
    {
        let event = &events[index];
        assert(views[index as int] == event@);
        match store_payload(&event.payload, encoding) {
            Ok(payload) => {
                prepared.push(clone_event_with_payload(event, payload));
            },
            Err(error) => {
                assert(first_unstorable(views, encoding, index as int));
                return Err(error);
            },
        }
        index += 1;
    }
    assert(event_views(prepared@) =~= stored_events(views, encoding));
    Ok(prepared)
}

/// The actions that append the events, where there are events to append.
pub open spec fn append_actions(
    expected_version: Option<usize>,
    events: Seq<EventView>,
) -> Seq<CommitActionView> {
    match expected_version {
        None => Seq::empty(),
        Some(expected_version) => seq![
            CommitActionView::CheckVersion { expected_version },
            CommitActionView::Append { expected_version, events },
        ],
    }
}

/// What writes the snapshot: it covers the events up to the last one.
pub open spec fn snapshot_action(
    snapshot: JsonView,
    version: usize,
    events: Seq<EventView>,
) -> CommitActionView {
    if events.len() == 0 {
        CommitActionView::Abort(EngineErrorView::EmptySnapshotUpdate)
    } else if events.last().sequence > i64::MAX || version > i64::MAX {
        CommitActionView::Abort(EngineErrorView::Integer)
    } else {
        CommitActionView::WriteSnapshot {
            last_sequence: events.last().sequence as i64,
            snapshot_version: version as i64,
            aggregate: json_printed(snapshot),
        }
    }
}

/// Whether the snapshot's text stores the snapshot, where one is written.
pub open spec fn snapshot_stored(snapshot: Option<SnapshotUpdate>, events: Seq<EventView>) -> bool {
    snapshot matches Some(update) ==> (snapshot_action(
        update.aggregate@,
        update.snapshot_version,
        events,
    ) matches CommitActionView::WriteSnapshot { aggregate, .. } ==> text_stores(
        update.aggregate@,
        aggregate,
    ))
}

/// The actions that enqueue the jobs, each with its first event and its queue row, and
/// end the commit.
pub open spec fn job_actions(jobs: Seq<EnqueueRequest>) -> Seq<CommitActionView>
    decreases jobs.len(),
{
    if jobs.len() == 0 {
        seq![CommitActionView::Commit]
    } else if !representable(jobs[0].run_at_ms as int) {
        seq![
            CommitActionView::Abort(
                EngineErrorView::JobFlush(JobStoreError::InvalidInstant(jobs[0].run_at_ms)),
            ),
        ]
    } else {
        seq![
            CommitActionView::AppendJob {
                job_id: ulid_text(jobs[0].job_id.0),
                event: enqueued(jobs[0]),
            },
            CommitActionView::WriteQueueRow {
                job_id: ulid_text(jobs[0].job_id.0),
                row: first_row(state_originated(enqueued(jobs[0]))->0),
            },
        ] + job_actions(jobs.skip(1))
    }
}

/// The actions of a commit from its snapshot on.
pub open spec fn closing_actions(
    snapshot: Option<SnapshotUpdate>,
    events: Seq<EventView>,
    jobs: Seq<EnqueueRequest>,
) -> Seq<CommitActionView> {
    match snapshot {
        None => job_actions(jobs),
        Some(update) => {
            let action = snapshot_action(update.aggregate@, update.snapshot_version, events);
            if action is Abort {
                seq![action]
            } else {
                seq![action] + job_actions(jobs)
            }
        },
    }
}

/// Whether `result` is the script of the request: the errors of the checks, in their
/// order, or the actions.
pub open spec fn commit_planned(
    request: CommitRequest<'_>,
    result: Result<Vec<CommitAction>, EngineError>,
) -> bool {
    let events = event_views(request.events@);
    let stream = request.stream@;
    let encoding = request.payload_encoding;
    let stored = stored_events(events, encoding);
    if exists|i: int| #[trigger] first_foreign(stream, events, i) {
        result matches Err(error) && exists|i: int| #[trigger]
            first_foreign(stream, events, i) && error@ == (EngineErrorView::StreamIdentityMismatch {
                expected: stream,
                actual: events[i].stream,
            })
    } else if exists|i: int| #[trigger] first_unstorable(events, encoding, i) {
        result matches Err(error) && exists|i: int| #[trigger]
            first_unstorable(events, encoding, i) && Err::<JsonView, _>(error@) == stored_payload(
                events[i].payload,
                encoding,
            )
    } else {
        match result {
            Ok(script) => exists|version: Option<usize>| #[trigger]
                sequences_checked(stored, Ok(version)) && script_views(script@) == append_actions(
                    version,
                    stored,
                ) + closing_actions(request.snapshot, stored, request.jobs@),
            Err(error) => sequences_checked(stored, Err(error)),
        }
    }
}

/// Plans a commit.
pub fn plan_commit(request: CommitRequest<'_>) -> (result: Result<Vec<CommitAction>, EngineError>)
    ensures
        commit_planned(request, result),
        result is Ok ==> snapshot_stored(
            request.snapshot,
            stored_events(event_views(request.events@), request.payload_encoding),
        ),
{
    let ghost events = event_views(request.events@);
    match validate_event_stream(&request.stream, request.events) {
        Ok(()) => {},
        Err(error) => return Err(error),
    }
    assert forall|i: int| !(#[trigger] first_foreign(request.stream@, events, i)) by {}
    let prepared = match prepare_event_payloads(request.events, request.payload_encoding) {
        Ok(prepared) => prepared,
        Err(error) => return Err(error),
    };
    assert forall|i: int| !(#[trigger] first_unstorable(events, request.payload_encoding, i)) by {}
    let expected_version = match validate_event_sequences(prepared.as_slice()) {
        Ok(expected_version) => expected_version,
        Err(error) => return Err(error),
    };
    let ghost stored = event_views(prepared@);
    let closing = close_commit(request.snapshot, &prepared, request.jobs);
    let mut closing = closing;
    let mut script: Vec<CommitAction> = Vec::new();
    let ghost closing_views = script_views(closing@);
    if let Some(expected_version) = expected_version {
        script.push(CommitAction::CheckVersion { expected_version });
        script.push(CommitAction::Append { expected_version, events: prepared });
    }
    assert(script_views(script@) =~= append_actions(expected_version, stored));
    let ghost opening = script@;
    let ghost rest = closing@;
    script.append(&mut closing);
    assert(script@ =~= opening + rest);
    assert(script_views(script@) =~= append_actions(expected_version, stored) + closing_views);
    assert(sequences_checked(stored, Ok(expected_version)));
    Ok(script)
}

/// The actions of a commit from its snapshot on.
pub fn close_commit(
    snapshot: Option<SnapshotUpdate>,
    events: &Vec<SerializedEvent>,
    jobs: Vec<EnqueueRequest>,
) -> (script: Vec<CommitAction>)
    ensures
        script_views(script@) == closing_actions(snapshot, event_views(events@), jobs@),
        snapshot_stored(snapshot, event_views(events@)),
{
    let mut script: Vec<CommitAction> = Vec::new();
    if let Some(update) = snapshot {
        let action = plan_snapshot(&update, events);
        let aborted = matches!(action, CommitAction::Abort(_));
        script.push(action);
        if aborted {
            assert(script_views(script@) =~= seq![action@]);
            return script;
        }
        assert(script_views(script@) =~= seq![action@]);
    }
    let ghost opening = script@;
    let mut rest = plan_jobs(jobs);
    let ghost planned = rest@;
    script.append(&mut rest);
    assert(script@ =~= opening + planned);
    assert(script_views(script@) =~= script_views(opening) + script_views(planned));
    assert(snapshot is None ==> script_views(script@) =~= script_views(planned));
    script
}

/// What writes a snapshot.
pub fn plan_snapshot(update: &SnapshotUpdate, events: &Vec<SerializedEvent>) -> (action:
    CommitAction)
    ensures
        action@ == snapshot_action(
            update.aggregate@,
            update.snapshot_version,
            event_views(events@),
        ),
        action@ matches CommitActionView::WriteSnapshot { aggregate, .. } ==> text_stores(
            update.aggregate@,
            aggregate,
        ),
{
    if events.len() == 0 {
        return CommitAction::Abort(EngineError::EmptySnapshotUpdate);
    }
    let last: usize = events[events.len() - 1].sequence;
    assert(event_views(events@).last() == events@.last()@);
    if last as u64 > i64::MAX as u64 || update.snapshot_version as u64 > i64::MAX as u64 {
        return CommitAction::Abort(EngineError::Integer);
    }
    match print_json(&update.aggregate) {
        Ok(aggregate) => CommitAction::WriteSnapshot {
            last_sequence: last as i64,
            snapshot_version: update.snapshot_version as i64,
            aggregate,
        },
        Err(message) => CommitAction::Abort(EngineError::Json(JsonFailure::Reader(message))),
    }
}

/// The actions that enqueue jobs and end the commit.
pub fn plan_jobs(jobs: Vec<EnqueueRequest>) -> (script: Vec<CommitAction>)
    ensures
        script_views(script@) == job_actions(jobs@),
{
    let mut script: Vec<CommitAction> = Vec::new();
    let mut index: usize = 0;
    assert(jobs@.skip(0) =~= jobs@);
    assert(script_views(script@) + job_actions(jobs@) =~= job_actions(jobs@));
    while index < jobs.len()
        invariant
            index <= jobs@.len(),
            script_views(script@) + job_actions(jobs@.skip(index as int)) == job_actions(jobs@),
        decreases jobs.len() - index,
    {
        let request = &jobs[index];
        let ghost before = script@;
        let ghost remaining = jobs@.skip(index as int);
        proof {
            assert(remaining[0] == jobs@[index as int]);
            assert(remaining.skip(1) =~= jobs@.skip(index + 1));
        }
        let event = match enqueued_event(request) {
            Ok(event) => event,
            Err(error) => {
                script.push(CommitAction::Abort(EngineError::JobFlush(error)));
                assert(script_views(script@) =~= script_views(before) + job_actions(remaining));
                return script;
            },
        };
        let state = match pending_seed(request) {
            Ok(state) => state,
            Err(error) => {
                script.push(CommitAction::Abort(EngineError::JobFlush(error)));
                assert(script_views(script@) =~= script_views(before) + job_actions(remaining));
                return script;
            },
        };
        script.push(CommitAction::AppendJob { job_id: request.job_id.to_string(), event });
        script.push(
            CommitAction::WriteQueueRow {
                job_id: request.job_id.to_string(),
                row: enqueued_row(state),
            },
        );
        proof {
            let pair = seq![
                CommitActionView::AppendJob {
                    job_id: ulid_text(remaining[0].job_id.0),
                    event: enqueued(remaining[0]),
                },
                CommitActionView::WriteQueueRow {
                    job_id: ulid_text(remaining[0].job_id.0),
                    row: first_row(state_originated(enqueued(remaining[0]))->0),
                },
            ];
            assert(script_views(script@) =~= script_views(before) + pair);
            assert(job_actions(remaining) == pair + job_actions(remaining.skip(1)));
            assert(script_views(script@) + job_actions(remaining.skip(1)) =~= script_views(before)
                + job_actions(remaining));
        }
        index += 1;
    }
    let ghost before = script@;
    script.push(CommitAction::Commit);
    assert(jobs@.skip(index as int).len() == 0);
    assert(script_views(script@) =~= script_views(before) + seq![CommitActionView::Commit]);
    script
}

/// Why a stream of this version refuses a writer, if it does: it stands above the version
/// that the writer expects. A stream whose events were compacted may stand below it.
pub open spec fn version_checked(expected_version: usize, actual_version: usize) -> Result<
    (),
    EngineErrorView,
> {
    if actual_version <= expected_version {
        Ok(())
    } else {
        Err(EngineErrorView::OptimisticLock { expected_version, actual_version })
    }
}

/// Whether `result` is the answer, or the error, of `expected`.
pub open spec fn answers<Output>(
    expected: Result<Output, EngineErrorView>,
    result: Result<Output, EngineError>,
) -> bool {
    match expected {
        Ok(output) => result == Ok::<_, EngineError>(output),
        Err(error) => result matches Err(found) && found@ == error,
    }
}

/// Accepts a stream whose version is not above the one that the writer expects.
pub fn check_version(expected_version: usize, actual_version: usize) -> (result: Result<
    (),
    EngineError,
>)
    ensures
        answers(version_checked(expected_version, actual_version), result),
{
    if actual_version > expected_version {
        Err(EngineError::OptimisticLock { expected_version, actual_version })
    } else {
        Ok(())
    }
}

/// What follows on the append of an event: a sequence that is taken is a conflict.
/// `taken` is the version of the stream then.
pub open spec fn append_checked(expected_version: usize, taken: Option<usize>) -> Result<
    (),
    EngineErrorView,
> {
    match taken {
        None => Ok(()),
        Some(actual_version) => Err(
            EngineErrorView::OptimisticLock { expected_version, actual_version },
        ),
    }
}

/// What follows on the append of an event.
pub fn after_append(expected_version: usize, taken: Option<usize>) -> (result: Result<
    (),
    EngineError,
>)
    ensures
        answers(append_checked(expected_version, taken), result),
{
    match taken {
        None => Ok(()),
        Some(actual_version) => Err(
            EngineError::OptimisticLock { expected_version, actual_version },
        ),
    }
}

/// A stream's version, from the highest sequence of its events and the sequence that
/// its snapshot covers; 0 where there is neither.
pub open spec fn stream_version(last_event: Option<i64>, last_covered: Option<i64>) -> Result<
    usize,
    EngineErrorView,
> {
    let event = if last_event is Some {
        last_event->0
    } else {
        0
    };
    let covered = if last_covered is Some {
        last_covered->0
    } else {
        0
    };
    let version = if event >= covered {
        event
    } else {
        covered
    };
    if 0 <= version <= usize::MAX {
        Ok(version as usize)
    } else {
        Err(EngineErrorView::Integer)
    }
}

/// A stream's version, from its events and its snapshot.
pub fn committed_stream_version(last_event: Option<i64>, last_covered: Option<i64>) -> (result:
    Result<usize, EngineError>)
    ensures
        answers(stream_version(last_event, last_covered), result),
{
    let event: i64 = match last_event {
        Some(sequence) => sequence,
        None => 0,
    };
    let covered: i64 = match last_covered {
        Some(sequence) => sequence,
        None => 0,
    };
    let version: i64 = if event >= covered {
        event
    } else {
        covered
    };
    if version < 0 || version as u64 > usize::MAX as u64 {
        return Err(EngineError::Integer);
    }
    Ok(version as usize)
}

/// A script ends in a commit or in an abort, and does neither before.
pub proof fn law_scripts_end_once(
    snapshot: Option<SnapshotUpdate>,
    version: Option<usize>,
    events: Seq<EventView>,
    jobs: Seq<EnqueueRequest>,
    index: int,
)
    requires
        0 <= index < (append_actions(version, events) + closing_actions(
            snapshot,
            events,
            jobs,
        )).len(),
    ensures
        ({
            let script = append_actions(version, events) + closing_actions(snapshot, events, jobs);
            (script[index] is Commit || script[index] is Abort) <==> index == script.len() - 1
        }),
{
    let opening = append_actions(version, events);
    let closing = closing_actions(snapshot, events, jobs);
    if index >= opening.len() {
        let at = index - opening.len();
        match snapshot {
            None => lemma_job_actions_end_once(jobs, at),
            Some(update) => {
                let action = snapshot_action(update.aggregate@, update.snapshot_version, events);
                if !(action is Abort) {
                    if at > 0 {
                        lemma_job_actions_end_once(jobs, at - 1);
                    } else {
                        assert(job_actions(jobs).len() > 0);
                    }
                }
            },
        }
    } else {
        assert(closing.len() > 0);
    }
}

/// The actions for jobs end in a commit or in an abort, and do neither before.
proof fn lemma_job_actions_end_once(jobs: Seq<EnqueueRequest>, index: int)
    requires
        0 <= index < job_actions(jobs).len(),
    ensures
        (job_actions(jobs)[index] is Commit || job_actions(jobs)[index] is Abort) <==> index
            == job_actions(jobs).len() - 1,
    decreases jobs.len(),
{
    if jobs.len() > 0 && representable(jobs[0].run_at_ms as int) {
        assert(job_actions(jobs.skip(1)).len() > 0);
        if index >= 2 {
            lemma_job_actions_end_once(jobs.skip(1), index - 2);
        }
    }
}

/// A script enqueues all of its jobs, in their order, each with its first event and with the
/// row that a job starts with, which holds what the event makes; one whose first run is no
/// instant lets nothing be committed.
pub proof fn law_jobs_commit_together(jobs: Seq<EnqueueRequest>, index: int)
    requires
        0 <= index < jobs.len(),
    ensures
        job_actions(jobs).last() is Commit ==> ({
            let actions = job_actions(jobs);
            &&& actions.len() == 2 * jobs.len() + 1
            &&& actions[2 * index] == CommitActionView::AppendJob {
                job_id: ulid_text(jobs[index].job_id.0),
                event: enqueued(jobs[index]),
            }
            &&& actions[2 * index + 1] == CommitActionView::WriteQueueRow {
                job_id: ulid_text(jobs[index].job_id.0),
                row: first_row(state_originated(enqueued(jobs[index]))->0),
            }
        }),
        job_actions(jobs).last() is Commit <==> forall|i: int|
            0 <= i < jobs.len() ==> representable((#[trigger] jobs[i]).run_at_ms as int),
    decreases jobs.len(),
{
    if representable(jobs[0].run_at_ms as int) {
        let rest = jobs.skip(1);
        assert(job_actions(rest).len() > 0);
        assert(job_actions(jobs).last() == job_actions(rest).last());
        if rest.len() > 0 {
            law_jobs_commit_together(
                rest,
                if index > 0 {
                    index - 1
                } else {
                    0
                },
            );
            assert(forall|i: int| 0 <= i < rest.len() ==> #[trigger] rest[i] == jobs[i + 1]);
            if forall|i: int|
                0 <= i < rest.len() ==> representable((#[trigger] rest[i]).run_at_ms as int) {
                assert forall|i: int| 0 <= i < jobs.len() implies representable(
                    (#[trigger] jobs[i]).run_at_ms as int,
                ) by {
                    if i > 0 {
                        assert(representable(rest[i - 1].run_at_ms as int));
                    }
                }
            }
            if forall|i: int|
                0 <= i < jobs.len() ==> representable((#[trigger] jobs[i]).run_at_ms as int) {
                assert forall|i: int| 0 <= i < rest.len() implies representable(
                    (#[trigger] rest[i]).run_at_ms as int,
                ) by {
                    assert(representable(jobs[i + 1].run_at_ms as int));
                }
            }
        }
    }
}

/// Events are appended only where each follows on the one before, from the version
/// that is checked first.
pub proof fn law_appended_events_are_contiguous(
    events: Seq<EventView>,
    version: Option<usize>,
    index: int,
)
    requires
        sequences_checked(events, Ok(version)),
        0 <= index < events.len(),
    ensures
        version is Some,
        events[index].sequence == version->0 + index + 1,
{
}

/// The version of a stream is bounded by everything that was ever stored of it: no event
/// and no snapshot is beyond it, also where the events that the snapshot covers are gone;
/// and it is one of them, or nothing was stored. Only what is no count at all has no
/// version.
pub proof fn law_versions_cover_events_and_snapshots(
    last_event: Option<i64>,
    last_covered: Option<i64>,
    result: Result<usize, EngineError>,
)
    requires
        call_ensures(committed_stream_version, (last_event, last_covered), result),
    ensures
        match result {
            Ok(version) => {
                &&& last_event matches Some(sequence) ==> version >= sequence
                &&& last_covered matches Some(sequence) ==> version >= sequence
                &&& version == 0 || last_event == Some(version as i64) || last_covered == Some(
                    version as i64,
                )
                &&& version <= i64::MAX
            },
            Err(error) => {
                &&& error is Integer
                &&& (last_event is Some && last_event->0 > usize::MAX) || (last_covered is Some
                    && last_covered->0 > usize::MAX) || (last_event is Some && last_event->0 < 0
                    && last_covered is Some && last_covered->0 < 0)
            },
        },
{
}

/// A writer may go on exactly where it has seen everything that was stored: one that
/// follows on a sequence below an event or below the snapshot of its stream is refused,
/// with the version that it missed.
pub proof fn law_writers_must_have_seen_the_stream(
    last_event: Option<i64>,
    last_covered: Option<i64>,
    version: usize,
    expected_version: usize,
    result: Result<(), EngineError>,
)
    requires
        call_ensures(committed_stream_version, (last_event, last_covered), Ok(version)),
        call_ensures(check_version, (expected_version, version), result),
    ensures
        result is Ok <==> {
            &&& last_event matches Some(sequence) ==> sequence <= expected_version
            &&& last_covered matches Some(sequence) ==> sequence <= expected_version
        },
        result matches Err(error) ==> (error matches EngineError::OptimisticLock {
            expected_version: expected,
            actual_version,
        } && expected == expected_version && actual_version == version && version
            > expected_version),
{
}

/// An append fails exactly where its place is taken, and tells the version that is there.
pub proof fn law_taken_places_are_refused(
    expected_version: usize,
    taken: Option<usize>,
    result: Result<(), EngineError>,
)
    requires
        call_ensures(after_append, (expected_version, taken), result),
    ensures
        match (taken, result) {
            (None, Ok(())) => true,
            (
                Some(version),
                Err(EngineError::OptimisticLock { expected_version: expected, actual_version }),
            ) => expected == expected_version && actual_version == version,
            _ => false,
        },
{
}

/// Events are accepted exactly where they count on by one from the first, which is at
/// least the first of all; then they follow on the version just below it.
pub proof fn law_batches_count_on_by_one(
    events: &[SerializedEvent],
    result: Result<Option<usize>, EngineError>,
)
    requires
        call_ensures(validate_event_sequences, (events,), result),
    ensures
        match result {
            Ok(None) => events@.len() == 0,
            Ok(Some(version)) => events@.len() > 0 && forall|i: int|
                0 <= i < events@.len() ==> (#[trigger] events@[i]).sequence == version + 1 + i,
            Err(EngineError::NonContiguousSequences { expected_version, offending }) => {
                &&& events@.len() > 0
                &&& events@[0].sequence == 0 || expected_version + 1 == events@[0].sequence
                &&& exists|i: int|
                    0 <= i < events@.len() && (#[trigger] events@[i]).sequence == offending
                        && offending != expected_version + 1 + i
            },
            Err(_) => false,
        },
{
    let views = event_views(events@);
    assert forall|i: int| 0 <= i < events@.len() implies (#[trigger] views[i]).sequence
        == events@[i].sequence by {}
    match result {
        Ok(Some(version)) => {
            assert forall|i: int| 0 <= i < events@.len() implies (#[trigger] events@[i]).sequence
                == version + 1 + i by {
                assert(views[i].sequence == version + i + 1);
            }
        },
        Ok(None) => {},
        Err(_) => {
            assert(views[0].sequence == events@[0].sequence);
            if views[0].sequence != 0 {
                let expected = (views[0].sequence - 1) as usize;
                let i = choose|i: int| #[trigger]
                    first_gap(expected as int, views, i) && result->Err_0
                        == (EngineError::NonContiguousSequences {
                        expected_version: expected,
                        offending: views[i].sequence,
                    });
                assert(events@[i].sequence == views[i].sequence);
            } else {
                assert(events@[0].sequence == 0);
            }
        },
    }
}

/// Events are accepted exactly where they all belong to the stream; else the stream of
/// one that does not is told.
pub proof fn law_batches_belong_to_one_stream(
    stream: StreamIdentity,
    events: &[SerializedEvent],
    result: Result<(), EngineError>,
)
    requires
        call_ensures(validate_event_stream, (&stream, events), result),
    ensures
        match result {
            Ok(()) => forall|i: int|
                0 <= i < events@.len() ==> (#[trigger] events@[i]).aggregate_type@
                    == stream.aggregate_type@ && events@[i].aggregate_id@ == stream.aggregate_id@,
            Err(EngineError::StreamIdentityMismatch { expected, actual }) => {
                &&& expected@ == stream@
                &&& actual@ != stream@
                &&& exists|i: int|
                    0 <= i < events@.len() && (#[trigger] events@[i]).aggregate_type@
                        == actual.aggregate_type@ && events@[i].aggregate_id@
                        == actual.aggregate_id@
            },
            Err(_) => false,
        },
{
    let views = event_views(events@);
    assert forall|i: int| 0 <= i < events@.len() implies (#[trigger] views[i]).stream
        == events@[i]@.stream by {}
    match result {
        Ok(()) => {
            assert forall|i: int| 0 <= i < events@.len() implies (
            #[trigger] events@[i]).aggregate_type@ == stream.aggregate_type@
                && events@[i].aggregate_id@ == stream.aggregate_id@ by {
                assert(views[i].stream == stream@);
            }
        },
        Err(error) => {
            let i = choose|i: int| #[trigger]
                first_foreign(stream@, views, i) && error@
                    == (EngineErrorView::StreamIdentityMismatch {
                    expected: stream@,
                    actual: views[i].stream,
                });
            assert(views[i].stream == events@[i]@.stream);
        },
    }
}

/// What is stored of an event differs from it in its payload alone, and a domain payload
/// that does not use the engine's own key is stored as it is.
pub proof fn law_events_are_stored_as_they_are(event: EventView, encoding: CommitPayloadEncoding)
    ensures
        ({
            let stored = stored_event(event, encoding);
            &&& stored.stream == event.stream
            &&& stored.sequence == event.sequence
            &&& stored.event_type == event.event_type
            &&& stored.event_version == event.event_version
            &&& stored.metadata == event.metadata
            &&& encoding is NativeJson && !(event.payload is Object) ==> stored.payload
                == event.payload
        }),
{
}

/// Whether the payload is an array of numbers that fit a byte each.
pub open spec fn holds_bytes(payload: JsonView) -> bool {
    payload matches JsonView::Array(items) && forall|i: int|
        0 <= i < items.len() ==> (#[trigger] items[i] matches JsonView::Unsigned(number) && 0
            <= number <= 255)
}

/// A commit that is planned appends all of its events, in their order and as they are, to
/// its own stream, after it made sure that nothing was stored behind its back; a reader
/// gets their payloads back. It is planned exactly where its events are its stream's own,
/// count on by one, and can be stored: any domain payload can, and as bytes only bytes.
pub proof fn law_planned_commits_append_their_events(
    request: CommitRequest<'_>,
    result: Result<Vec<CommitAction>, EngineError>,
)
    requires
        call_ensures(plan_commit, (request,), result),
        request.events@.len() > 0,
    ensures
        ({
            let events = request.events@;
            let own = forall|i: int|
                0 <= i < events.len() ==> (#[trigger] events[i]).aggregate_type@
                    == request.stream.aggregate_type@ && events[i].aggregate_id@
                    == request.stream.aggregate_id@;
            let counted = events[0].sequence > 0 && forall|i: int|
                0 <= i < events.len() ==> (#[trigger] events[i]).sequence == events[0].sequence + i;
            let storable = request.payload_encoding is OpaqueBytes ==> forall|i: int|
                0 <= i < events.len() ==> holds_bytes((#[trigger] events[i]).payload@);
            &&& result is Ok <==> own && counted && storable
            &&& result matches Ok(script) ==> match (script@[0], script@[1]) {
                (
                    CommitAction::CheckVersion { expected_version },
                    CommitAction::Append { expected_version: again, events: appended },
                ) => {
                    &&& expected_version == events[0].sequence - 1
                    &&& again == expected_version
                    &&& appended@.len() == events.len()
                    &&& forall|i: int|
                        0 <= i < events.len() ==> appended_as(
                            #[trigger] events[i],
                            request.payload_encoding,
                            appended@[i],
                        )
                },
                _ => false,
            }
        }),
{
    let events = request.events@;
    let views = event_views(events);
    let stream = request.stream@;
    let encoding = request.payload_encoding;
    let stored = stored_events(views, encoding);
    assert forall|i: int| 0 <= i < events.len() implies #[trigger] views[i] == events[i]@ by {}
    assert forall|i: int| 0 <= i < events.len() implies #[trigger] stored[i] == stored_event(
        views[i],
        encoding,
    ) by {}
    assert forall|i: int| 0 <= i < events.len() && encoding is OpaqueBytes implies (holds_bytes(
        (#[trigger] views[i]).payload,
    ) <==> stored_payload(views[i].payload, encoding) is Ok) by {
        lemma_bytes_can_be_stored(views[i].payload);
    }
    let own = forall|i: int|
        0 <= i < events.len() ==> (#[trigger] events[i]).aggregate_type@
            == request.stream.aggregate_type@ && events[i].aggregate_id@
            == request.stream.aggregate_id@;
    if exists|i: int| #[trigger] first_foreign(stream, views, i) {
        let i = choose|i: int| #[trigger] first_foreign(stream, views, i);
        assert(views[i] == events[i]@);
        assert(!own);
    } else if exists|i: int| #[trigger] first_unstorable(views, encoding, i) {
        let i = choose|i: int| #[trigger] first_unstorable(views, encoding, i);
        assert(views[i] == events[i]@);
        assert(encoding is OpaqueBytes);
        assert(!holds_bytes(events[i].payload@));
    } else {
        lemma_own_unless_foreign(stream, views, views.len() as int);
        lemma_storable_unless_first(views, encoding, views.len() as int);
        assert(own) by {
            assert forall|i: int| 0 <= i < events.len() implies (
            #[trigger] events[i]).aggregate_type@ == request.stream.aggregate_type@
                && events[i].aggregate_id@ == request.stream.aggregate_id@ by {
                assert(views[i].stream == stream);
            }
        }
        if encoding is OpaqueBytes {
            assert forall|i: int| 0 <= i < events.len() implies holds_bytes(
                (#[trigger] events[i]).payload@,
            ) by {
                assert(views[i] == events[i]@);
                assert(stored_payload(views[i].payload, encoding) is Ok);
            }
        }
        assert(stored[0].sequence == events[0].sequence);
        match result {
            Ok(script) => {
                let version = choose|version: Option<usize>| #[trigger]
                    sequences_checked(stored, Ok(version)) && script_views(script@)
                        == append_actions(version, stored) + closing_actions(
                        request.snapshot,
                        stored,
                        request.jobs@,
                    );
                let actions = script_views(script@);
                assert(actions[0] == (CommitActionView::CheckVersion {
                    expected_version: version->0,
                }));
                assert(actions[1] == (CommitActionView::Append {
                    expected_version: version->0,
                    events: stored,
                }));
                assert(actions.len() >= 2);
                assert(script@.len() == actions.len());
                assert(actions[0] == script@[0]@);
                assert(actions[1] == script@[1]@);
                assert forall|i: int| 0 <= i < events.len() implies (
                #[trigger] events[i]).sequence == events[0].sequence + i by {
                    assert(stored[i].sequence == version->0 + i + 1);
                }
                let appended = script@[1]->Append_events;
                assert(event_views(appended@) == stored);
                assert forall|i: int| 0 <= i < events.len() implies appended_as(
                    #[trigger] events[i],
                    encoding,
                    appended@[i],
                ) by {
                    assert(event_views(appended@)[i] == appended@[i]@);
                    assert(stored[i] == stored_event(views[i], encoding));
                    assert(stored_payload(views[i].payload, encoding) is Ok);
                    law_payloads_are_read_back(views[i].payload, encoding);
                }
            },
            Err(error) => {
                if stored[0].sequence != 0 {
                    let expected = (stored[0].sequence - 1) as usize;
                    let i = choose|i: int| #[trigger]
                        first_gap(expected as int, stored, i) && error
                            == (EngineError::NonContiguousSequences {
                            expected_version: expected,
                            offending: stored[i].sequence,
                        });
                    assert(stored[i].sequence == events[i].sequence);
                }
            },
        }
    }
}

/// Whether `appended` is the event, field for field, with a payload that is read back as
/// the event's: as it is, or as the bytes that it holds.
pub open spec fn appended_as(
    event: SerializedEvent,
    encoding: CommitPayloadEncoding,
    appended: SerializedEvent,
) -> bool {
    &&& appended.aggregate_type@ == event.aggregate_type@
    &&& appended.aggregate_id@ == event.aggregate_id@
    &&& appended.sequence == event.sequence
    &&& appended.event_type@ == event.event_type@
    &&& appended.event_version@ == event.event_version@
    &&& appended.metadata@ == event.metadata@
    &&& match (encoding, loaded_payload(appended.payload@)) {
        (CommitPayloadEncoding::NativeJson, Ok(LoadedPayloadView::Json(value))) => value
            == event.payload@,
        (CommitPayloadEncoding::OpaqueBytes, Ok(LoadedPayloadView::OpaqueBytes(bytes))) => {
            &&& event.payload@ matches JsonView::Array(items)
            &&& bytes.len() == items.len()
            &&& forall|i: int|
                0 <= i < items.len() ==> #[trigger] items[i] == JsonView::Unsigned(bytes[i] as int)
        },
        _ => false,
    }
}

/// Bytes can be stored as bytes, and nothing else can.
proof fn lemma_bytes_can_be_stored(payload: JsonView)
    ensures
        holds_bytes(payload) <==> stored_payload(payload, CommitPayloadEncoding::OpaqueBytes) is Ok,
{
    if let JsonView::Array(items) = payload {
        if holds_bytes(payload) {
            assert forall|i: int| 0 <= i < items.len() implies is_byte(#[trigger] items[i]) by {}
        } else if bytes_from(payload) is Some {
            assert forall|i: int| 0 <= i < items.len() implies (
            #[trigger] items[i] matches JsonView::Unsigned(number) && 0 <= number <= 255) by {
                assert(is_byte(items[i]));
            }
        }
    }
}

/// Where no event is the first that cannot be stored, all can.
proof fn lemma_storable_unless_first(
    events: Seq<EventView>,
    encoding: CommitPayloadEncoding,
    upto: int,
)
    requires
        0 <= upto <= events.len(),
        forall|i: int| !(#[trigger] first_unstorable(events, encoding, i)),
    ensures
        forall|i: int|
            0 <= i < upto ==> stored_payload((#[trigger] events[i]).payload, encoding) is Ok,
    decreases upto,
{
    if upto > 0 {
        lemma_storable_unless_first(events, encoding, upto - 1);
        assert(!first_unstorable(events, encoding, upto - 1));
    }
}

/// Where no event is the first of another stream, all belong to the stream.
proof fn lemma_own_unless_foreign(stream: StreamView, events: Seq<EventView>, upto: int)
    requires
        0 <= upto <= events.len(),
        forall|i: int| !(#[trigger] first_foreign(stream, events, i)),
    ensures
        forall|i: int| 0 <= i < upto ==> (#[trigger] events[i]).stream == stream,
    decreases upto,
{
    if upto > 0 {
        lemma_own_unless_foreign(stream, events, upto - 1);
        assert(!first_foreign(stream, events, upto - 1));
    }
}

/// A commit carries what it is given and keeps what it had: its stream and its events, its
/// jobs in their order, and a snapshot, which needs events to cover.
pub proof fn law_commits_carry_what_they_are_given(
    stream: StreamIdentity,
    events: &[SerializedEvent],
    fresh: CommitRequest<'_>,
    before: CommitRequest<'_>,
    job: JobSeed,
    with_one: CommitRequest<'_>,
    jobs: Vec<EnqueueRequest>,
    with_many: CommitRequest<'_>,
    update: SnapshotUpdate,
    with_update: Result<CommitRequest<'_>, EngineError>,
    opaque: CommitRequest<'_>,
)
    requires
        call_ensures(CommitRequest::new, (stream, events), fresh),
        call_ensures(CommitRequest::with_job, (before, job), with_one),
        call_ensures(CommitRequest::with_jobs, (before, jobs), with_many),
        call_ensures(CommitRequest::with_snapshot, (before, update), with_update),
        call_ensures(CommitRequest::with_opaque_payloads, (before,), opaque),
    ensures
        fresh.stream == stream && fresh.events == events && fresh.snapshot is None,
        fresh.jobs@.len() == 0 && fresh.payload_encoding is NativeJson,
        with_one.stream == before.stream && with_one.events == before.events && with_one.snapshot
            == before.snapshot && with_one.payload_encoding == before.payload_encoding,
        with_one.jobs@ == before.jobs@.push(job.0),
        with_many.stream == before.stream && with_many.events == before.events
            && with_many.snapshot == before.snapshot && with_many.payload_encoding
            == before.payload_encoding && with_many.jobs == jobs,
        match with_update {
            Ok(request) => before.events@.len() > 0 && request.snapshot == Some(update)
                && request.events == before.events && request.jobs == before.jobs && request.stream
                == before.stream && request.payload_encoding == before.payload_encoding,
            Err(error) => before.events@.len() == 0 && error is EmptySnapshotUpdate,
        },
        opaque.payload_encoding is OpaqueBytes && opaque.stream == before.stream && opaque.events
            == before.events && opaque.snapshot == before.snapshot && opaque.jobs == before.jobs,
{
}

/// The script of a commit closes with what was asked for: the snapshot, covering the last
/// event, is written before any job, each job is enqueued with its event and its row, and
/// the commit comes last; what cannot be written ends the script with its reason.
pub proof fn law_scripts_close_with_what_was_asked_for(
    snapshot: Option<SnapshotUpdate>,
    events: Seq<EventView>,
    jobs: Seq<EnqueueRequest>,
)
    ensures
        ({
            let script = closing_actions(snapshot, events, jobs);
            match snapshot {
                None => jobs.len() == 0 ==> script.len() == 1 && script[0] is Commit,
                Some(update) => match script[0] {
                    CommitActionView::WriteSnapshot { last_sequence, snapshot_version, .. } => {
                        &&& events.len() > 0
                        &&& last_sequence == events.last().sequence
                        &&& snapshot_version == update.snapshot_version
                        &&& jobs.len() == 0 ==> script.len() == 2 && script[1] is Commit
                    },
                    CommitActionView::Abort(EngineErrorView::EmptySnapshotUpdate) => {
                        events.len() == 0 && script.len() == 1
                    },
                    CommitActionView::Abort(EngineErrorView::Integer) => script.len() == 1
                        && events.len() > 0 && (events.last().sequence > i64::MAX
                        || update.snapshot_version > i64::MAX),
                    _ => false,
                },
            }
        }),
        jobs.len() > 0 ==> ({
            let actions = job_actions(jobs);
            match actions[0] {
                CommitActionView::AppendJob { job_id, event } => {
                    &&& job_id == ulid_text(jobs[0].job_id.0)
                    &&& event matches JobEvent::Enqueued { kind, payload, run_at }
                    &&& kind == jobs[0].kind && payload == jobs[0].payload && run_at
                        == jobs[0].run_at_ms
                    &&& actions[1] matches CommitActionView::WriteQueueRow { job_id: of, row }
                    &&& of == job_id
                    &&& row.version == 1 && row.lease_until_ms is None
                    &&& row.state matches JobState::Pending {
                        kind: own,
                        payload: carried,
                        run_at: waits,
                        attempt,
                        claims,
                    }
                    &&& own == jobs[0].kind && carried == jobs[0].payload && waits
                        == jobs[0].run_at_ms && attempt == 0 && claims == 0
                    &&& actions.skip(2) == job_actions(jobs.skip(1))
                },
                CommitActionView::Abort(
                    EngineErrorView::JobFlush(JobStoreError::InvalidInstant(instant)),
                ) => instant == jobs[0].run_at_ms && !representable(instant as int)
                    && actions.len() == 1,
                _ => false,
            }
        }),
{
    if jobs.len() > 0 && representable(jobs[0].run_at_ms as int) {
        assert(job_actions(jobs).skip(2) =~= job_actions(jobs.skip(1)));
    }
}

/// What is planned is what the plan says, so that all that holds of a plan holds of it.
pub proof fn law_commits_are_planned(
    request: CommitRequest<'_>,
    result: Result<Vec<CommitAction>, EngineError>,
)
    requires
        call_ensures(plan_commit, (request,), result),
    ensures
        commit_planned(request, result),
        request.events@.len() == 0 ==> result is Ok,
{
    if request.events@.len() == 0 {
        let views = event_views(request.events@);
        let stored = stored_events(views, request.payload_encoding);
        assert forall|i: int| !(#[trigger] first_foreign(request.stream@, views, i)) by {}
        assert forall|i: int|
            !(#[trigger] first_unstorable(views, request.payload_encoding, i)) by {}
        assert(stored.len() == 0);
    }
}

/// A payload is stored so that it is read back, by the way in which it was given.
pub proof fn law_payloads_are_stored_to_be_read(
    payload: Json,
    native: Result<Json, EngineError>,
    opaque: Result<Json, EngineError>,
)
    requires
        call_ensures(store_payload, (&payload, CommitPayloadEncoding::NativeJson), native),
        call_ensures(store_payload, (&payload, CommitPayloadEncoding::OpaqueBytes), opaque),
    ensures
        native matches Ok(stored) && loaded_payload(stored@) == Ok::<_, EngineErrorView>(
            LoadedPayloadView::Json(payload@),
        ),
        opaque is Ok <==> holds_bytes(payload@),
        opaque matches Ok(stored) ==> (loaded_payload(
            stored@,
        ) matches Ok(LoadedPayloadView::OpaqueBytes(bytes)) && bytes.len()
            == payload@->Array_0.len()),
        opaque matches Err(error) ==> error is Json,
{
    lemma_bytes_can_be_stored(payload@);
    law_payloads_are_read_back(payload@, CommitPayloadEncoding::NativeJson);
    if opaque is Ok {
        law_payloads_are_read_back(payload@, CommitPayloadEncoding::OpaqueBytes);
    }
}

} // verus!
