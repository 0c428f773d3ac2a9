//! What a commit makes of a database.
//!
//! [`Database`] stands for the stored streams and the queue of jobs. The script of a commit
//! is performed on it action by action, each as the functions say that decide it.

use vstd::prelude::*;

use crate::commit::{
    append_actions, append_checked, closing_actions, commit_planned, contiguous, first_foreign,
    first_unstorable, job_actions, script_views, sequences_checked, snapshot_action, stored_event,
    stored_events, stream_version, version_checked, CommitAction, CommitActionView, CommitRequest,
};
use crate::engine::{event_views, EngineErrorView, EventView, StreamView};
use crate::identity::{law_identities_are_read_back, ulid_text};
use crate::job::{enqueued, state_originated, EnqueueRequest, JobEvent, JobStoreError};
use crate::json::JsonView;
use crate::storage::{first_row, job_stream, stored_job_event, QueueRow, FIRST_EVENT_SEQ};
use crate::time::representable;

verus! {

/// The rows of one stream: its events, in the order of their sequences, and the sequence
/// that its snapshot covers. Events that the snapshot covers may be gone.
pub struct StoredStream {
    pub events: Seq<EventView>,
    pub covered: Option<i64>,
}

impl StoredStream {
    /// Whether the rows are those of the stream: its own events, their sequences ascending
    /// from 1 on and within their column.
    pub open spec fn well_formed(self, stream: StreamView) -> bool {
        &&& forall|i: int|
            0 <= i < self.events.len() ==> (#[trigger] self.events[i]).stream == stream && 1
                <= self.events[i].sequence <= i64::MAX
        &&& forall|i: int, j: int|
            0 <= i < j < self.events.len() ==> (#[trigger] self.events[i]).sequence < (
            #[trigger] self.events[j]).sequence
        &&& self.covered matches Some(covered) ==> 0 <= covered <= usize::MAX
    }

    /// The highest sequence of the events.
    pub open spec fn last_event(self) -> Option<i64> {
        if self.events.len() == 0 {
            None
        } else {
            Some(self.events.last().sequence as i64)
        }
    }

    /// The version of the stream.
    pub open spec fn version(self) -> Result<usize, EngineErrorView> {
        stream_version(self.last_event(), self.covered)
    }

    /// Whether an event has the sequence.
    pub open spec fn has(self, sequence: usize) -> bool {
        exists|i: int| 0 <= i < self.events.len() && (#[trigger] self.events[i]).sequence == sequence
    }
}

/// The events with one more, in the order of their sequences.
pub open spec fn inserted(events: Seq<EventView>, event: EventView) -> Seq<EventView>
    decreases events.len(),
{
    if events.len() == 0 || events.last().sequence < event.sequence {
        events.push(event)
    } else {
        inserted(events.drop_last(), event).push(events.last())
    }
}

/// The stream once a batch was appended, event by event, or why it was not: a sequence
/// does not fit its column, or is taken.
pub open spec fn appended(
    stream: StoredStream,
    expected_version: usize,
    batch: Seq<EventView>,
) -> Result<StoredStream, EngineErrorView>
    decreases batch.len(),
{
    if batch.len() == 0 {
        Ok(stream)
    } else if batch[0].sequence > i64::MAX {
        Err(EngineErrorView::Integer)
    } else if stream.has(batch[0].sequence) {
        match stream.version() {
            Ok(actual) => Err(append_checked(expected_version, Some(actual))->Err_0),
            Err(error) => Err(error),
        }
    } else {
        appended(
            StoredStream { events: inserted(stream.events, batch[0]), ..stream },
            expected_version,
            batch.skip(1),
        )
    }
}

/// The stored streams, and the rows of the queue by the identities of their jobs.
pub struct Database {
    pub streams: Map<StreamView, StoredStream>,
    pub rows: Map<Seq<char>, QueueRow>,
}

impl Database {
    /// The rows of a stream; none where nothing was stored.
    pub open spec fn at(self, stream: StreamView) -> StoredStream {
        if self.streams.contains_key(stream) {
            self.streams[stream]
        } else {
            StoredStream { events: Seq::empty(), covered: None }
        }
    }

    /// The database with other rows for a stream.
    pub open spec fn with(self, stream: StreamView, rows: StoredStream) -> Database {
        Database { streams: self.streams.insert(stream, rows), ..self }
    }

    /// Whether each stream has its own rows, and every row of the queue belongs to a job
    /// whose stream was started.
    pub open spec fn well_formed(self) -> bool {
        &&& forall|stream: StreamView| #[trigger]
            self.streams.contains_key(stream) ==> self.streams[stream].well_formed(stream)
        &&& forall|job_id: Seq<char>| #[trigger]
            self.rows.contains_key(job_id) ==> self.at(job_stream(job_id)).has(FIRST_EVENT_SEQ)
    }
}

/// Why a transaction is rolled back.
pub enum CommitFailure {
    /// The engine refuses.
    Refused(EngineErrorView),
    /// The queue has a row of that job already.
    RowTaken,
}

/// The database once a script on `stream` was performed, or why nothing was written:
/// `stored` is the database before the transaction, `pending` the one within it. `encode`
/// gives the JSON form of a job event.
pub open spec fn performed(
    stored: Database,
    pending: Database,
    stream: StreamView,
    encode: spec_fn(JobEvent) -> JsonView,
    script: Seq<CommitActionView>,
) -> Result<Database, CommitFailure>
    decreases script.len(),
{
    if script.len() == 0 {
        Ok(stored)
    } else {
        let rest = script.skip(1);
        match script[0] {
            CommitActionView::CheckVersion { expected_version } => match pending.at(
                stream,
            ).version() {
                Ok(actual) => match version_checked(expected_version, actual) {
                    Ok(()) => performed(stored, pending, stream, encode, rest),
                    Err(error) => Err(CommitFailure::Refused(error)),
                },
                Err(error) => Err(CommitFailure::Refused(error)),
            },
            CommitActionView::Append { expected_version, events } => match appended(
                pending.at(stream),
                expected_version,
                events,
            ) {
                Ok(longer) => performed(stored, pending.with(stream, longer), stream, encode, rest),
                Err(error) => Err(CommitFailure::Refused(error)),
            },
            CommitActionView::WriteSnapshot { last_sequence, .. } => performed(
                stored,
                pending.with(
                    stream,
                    StoredStream { covered: Some(last_sequence), ..pending.at(stream) },
                ),
                stream,
                encode,
                rest,
            ),
            CommitActionView::AppendJob { job_id, event } => match appended(
                pending.at(job_stream(job_id)),
                (FIRST_EVENT_SEQ - 1) as usize,
                seq![stored_job_event(job_id, FIRST_EVENT_SEQ, event, encode(event))],
            ) {
                Ok(started) => performed(
                    stored,
                    pending.with(job_stream(job_id), started),
                    stream,
                    encode,
                    rest,
                ),
                Err(error) => Err(CommitFailure::Refused(error)),
            },
            CommitActionView::WriteQueueRow { job_id, row } => if pending.rows.contains_key(
                job_id,
            ) {
                Err(CommitFailure::RowTaken)
            } else {
                performed(
                    stored,
                    Database { rows: pending.rows.insert(job_id, row), ..pending },
                    stream,
                    encode,
                    rest,
                )
            },
            CommitActionView::Commit => Ok(pending),
            CommitActionView::Abort(error) => Err(CommitFailure::Refused(error)),
        }
    }
}

/// What a commit makes of the database, or why it writes nothing.
pub open spec fn committed(
    stored: Database,
    request: CommitRequest<'_>,
    encode: spec_fn(JobEvent) -> JsonView,
    script: Vec<CommitAction>,
) -> Result<Database, CommitFailure> {
    performed(stored, stored, request.stream@, encode, script_views(script@))
}

/// The database after a commit: as it was where the commit failed.
pub open spec fn left_by(stored: Database, result: Result<Database, CommitFailure>) -> Database {
    match result {
        Ok(after) => after,
        Err(_) => stored,
    }
}

/// The first event of a job as it is stored.
pub open spec fn job_start(
    job: EnqueueRequest,
    encode: spec_fn(JobEvent) -> JsonView,
) -> EventView {
    stored_job_event(
        ulid_text(job.job_id.0),
        FIRST_EVENT_SEQ,
        enqueued(job),
        encode(enqueued(job)),
    )
}

/// The stream of a requested job.
pub open spec fn requested_stream(job: EnqueueRequest) -> StreamView {
    job_stream(ulid_text(job.job_id.0))
}

/// The row with which a requested job starts.
pub open spec fn requested_row(job: EnqueueRequest) -> QueueRow {
    first_row(state_originated(enqueued(job))->0)
}

/// The database with one job more: its first event, and its row.
pub open spec fn with_job(
    before: Database,
    job: EnqueueRequest,
    encode: spec_fn(JobEvent) -> JsonView,
) -> Database {
    let started = before.at(requested_stream(job));
    Database {
        rows: before.rows.insert(ulid_text(job.job_id.0), requested_row(job)),
        ..before.with(
            requested_stream(job),
            StoredStream { events: inserted(started.events, job_start(job, encode)), ..started },
        )
    }
}

/// The database with the jobs, or the error of the first that cannot be enqueued: its
/// first run is no instant, or its identity is taken.
pub open spec fn enqueued_into(
    before: Database,
    jobs: Seq<EnqueueRequest>,
    encode: spec_fn(JobEvent) -> JsonView,
) -> Result<Database, CommitFailure>
    decreases jobs.len(),
{
    if jobs.len() == 0 {
        Ok(before)
    } else if !representable(jobs[0].run_at_ms as int) {
        Err(
            CommitFailure::Refused(
                EngineErrorView::JobFlush(JobStoreError::InvalidInstant(jobs[0].run_at_ms)),
            ),
        )
    } else if before.at(requested_stream(jobs[0])).has(FIRST_EVENT_SEQ) {
        Err(
            CommitFailure::Refused(
                EngineErrorView::OptimisticLock {
                    expected_version: 0,
                    actual_version: before.at(requested_stream(jobs[0])).version()->Ok_0,
                },
            ),
        )
    } else {
        enqueued_into(with_job(before, jobs[0], encode), jobs.skip(1), encode)
    }
}

/// Whether the jobs can be enqueued together: their first runs are instants, and no
/// identity is taken or occurs twice.
pub open spec fn enqueueable(before: Database, jobs: Seq<EnqueueRequest>) -> bool {
    &&& forall|i: int|
        0 <= i < jobs.len() ==> representable((#[trigger] jobs[i]).run_at_ms as int) && !before.at(
            requested_stream(jobs[i]),
        ).has(FIRST_EVENT_SEQ)
    &&& forall|i: int, j: int|
        0 <= i < j < jobs.len() ==> (#[trigger] jobs[i]).job_id != (#[trigger] jobs[j]).job_id
}

/// The database with the events of a commit, and with its snapshot if it has one.
pub open spec fn with_batch(before: Database, request: CommitRequest<'_>) -> Database {
    let rows = before.at(request.stream@);
    let batch = stored_events(event_views(request.events@), request.payload_encoding);
    before.with(
        request.stream@,
        StoredStream {
            events: rows.events + batch,
            covered: if request.snapshot is Some {
                Some(request.events@.last().sequence as i64)
            } else {
                rows.covered
            },
        },
    )
}

/// An event whose sequence is not there is inserted in its place.
proof fn lemma_inserted_in_order(events: Seq<EventView>, event: EventView) -> (place: int)
    requires
        forall|i: int, j: int|
            0 <= i < j < events.len() ==> (#[trigger] events[i]).sequence < (
            #[trigger] events[j]).sequence,
        forall|i: int|
            0 <= i < events.len() ==> (#[trigger] events[i]).sequence != event.sequence,
    ensures
        0 <= place <= events.len(),
        inserted(events, event) == events.insert(place, event),
        forall|i: int| 0 <= i < place ==> (#[trigger] events[i]).sequence < event.sequence,
        forall|i: int|
            place <= i < events.len() ==> (#[trigger] events[i]).sequence > event.sequence,
    decreases events.len(),
{
    if events.len() == 0 || events.last().sequence < event.sequence {
        assert(events.push(event) =~= events.insert(events.len() as int, event));
        assert forall|i: int| 0 <= i < events.len() implies (#[trigger] events[i]).sequence
            < event.sequence by {
            let last = events[events.len() - 1];
            assert(i < events.len() - 1 ==> events[i].sequence < last.sequence);
        }
        events.len() as int
    } else {
        let shorter = events.drop_last();
        let place = lemma_inserted_in_order(shorter, event);
        assert(shorter.insert(place, event).push(events.last()) =~= events.insert(place, event));
        assert forall|i: int| 0 <= i < place implies (#[trigger] events[i]).sequence
            < event.sequence by {
            assert(shorter[i] == events[i]);
        }
        assert forall|i: int| place <= i < events.len() implies (#[trigger] events[i]).sequence
            > event.sequence by {
            if i < shorter.len() {
                assert(shorter[i] == events[i]);
            }
        }
        place
    }
}

/// A stream with one more event of its own is still one.
proof fn lemma_streams_take_events(stream: StoredStream, identity: StreamView, event: EventView)
    requires
        stream.well_formed(identity),
        !stream.has(event.sequence),
        event.stream == identity,
        1 <= event.sequence <= i64::MAX,
    ensures
        ({
            let after = StoredStream { events: inserted(stream.events, event), ..stream };
            &&& after.well_formed(identity)
            &&& after.events.contains(event)
            &&& forall|kept: EventView| #[trigger]
                stream.events.contains(kept) ==> after.events.contains(kept)
            &&& forall|sequence: usize| #[trigger]
                after.has(sequence) <==> sequence == event.sequence || stream.has(sequence)
            &&& stream.events.len() > 0 && event.sequence == 1 ==> after.last_event()
                == stream.last_event()
        }),
{
    let after = StoredStream { events: inserted(stream.events, event), ..stream };
    let place = lemma_inserted_in_order(stream.events, event);
    assert(after.events[place] == event);
    assert forall|i: int| 0 <= i < stream.events.len() implies after.events[if i < place {
        i
    } else {
        i + 1
    }] == #[trigger] stream.events[i] by {}
    assert forall|kept: EventView| #[trigger] stream.events.contains(kept) implies
        after.events.contains(kept) by {
        let i = choose|i: int| 0 <= i < stream.events.len() && stream.events[i] == kept;
        assert(after.events[if i < place {
            i
        } else {
            i + 1
        }] == stream.events[i]);
    }
    assert forall|sequence: usize| #[trigger] after.has(sequence) <==> sequence == event.sequence
        || stream.has(sequence) by {
        if stream.has(sequence) {
            let i = choose|i: int|
                0 <= i < stream.events.len() && (#[trigger] stream.events[i]).sequence == sequence;
            assert(after.events[if i < place {
                i
            } else {
                i + 1
            }] == stream.events[i]);
        }
        if after.has(sequence) {
            let i = choose|i: int|
                0 <= i < after.events.len() && (#[trigger] after.events[i]).sequence == sequence;
            if i < place {
                assert(after.events[i] == stream.events[i]);
            } else if i > place {
                assert(after.events[i] == stream.events[i - 1]);
            }
        }
    }
    if stream.events.len() > 0 && event.sequence == 1 {
        assert(stream.events[0].sequence >= 1);
        assert(stream.has(stream.events[0].sequence));
        assert(place == 0) by {
            if place > 0 {
                assert(stream.events[0].sequence < event.sequence);
            }
        }
    }
}

/// A batch that follows on all events of a stream without a gap is appended whole.
proof fn lemma_following_batches_are_appended(
    stream: StoredStream,
    identity: StreamView,
    from: int,
    expected_version: usize,
    batch: Seq<EventView>,
)
    requires
        stream.well_formed(identity),
        0 <= from,
        forall|i: int| 0 <= i < stream.events.len() ==> (#[trigger] stream.events[i]).sequence <= from,
        contiguous(from, batch),
        forall|i: int|
            0 <= i < batch.len() ==> (#[trigger] batch[i]).stream == identity && batch[i].sequence
                <= i64::MAX,
    ensures
        ({
            let after = StoredStream { events: stream.events + batch, ..stream };
            &&& appended(stream, expected_version, batch) == Ok::<_, EngineErrorView>(after)
            &&& after.well_formed(identity)
        }),
    decreases batch.len(),
{
    if batch.len() == 0 {
        assert(stream.events + batch =~= stream.events);
    } else {
        let longer = StoredStream { events: stream.events.push(batch[0]), ..stream };
        let rest = batch.skip(1);
        assert(batch[0].sequence == from + 1);
        assert(inserted(stream.events, batch[0]) == stream.events.push(batch[0]));
        assert(longer.well_formed(identity));
        assert(contiguous(from + 1, rest)) by {
            assert forall|i: int| 0 <= i < rest.len() implies (#[trigger] rest[i]).sequence == from
                + 1 + i + 1 by {
                assert(rest[i] == batch[i + 1]);
            }
        }
        lemma_following_batches_are_appended(longer, identity, from + 1, expected_version, rest);
        assert(longer.events + rest =~= stream.events + batch);
    }
}

/// A batch that follows on all events of a stream is refused where its sequences leave
/// their column.
proof fn lemma_overlong_batches_are_refused(
    stream: StoredStream,
    identity: StreamView,
    from: int,
    expected_version: usize,
    batch: Seq<EventView>,
)
    requires
        stream.well_formed(identity),
        0 <= from,
        forall|i: int| 0 <= i < stream.events.len() ==> (#[trigger] stream.events[i]).sequence <= from,
        contiguous(from, batch),
        batch.len() > 0,
        batch.last().sequence > i64::MAX,
        forall|i: int| 0 <= i < batch.len() ==> (#[trigger] batch[i]).stream == identity,
    ensures
        appended(stream, expected_version, batch) == Err::<StoredStream, _>(
            EngineErrorView::Integer,
        ),
    decreases batch.len(),
{
    assert(batch[0].sequence == from + 1);
    if batch[0].sequence <= i64::MAX {
        let longer = StoredStream { events: stream.events.push(batch[0]), ..stream };
        let rest = batch.skip(1);
        assert(inserted(stream.events, batch[0]) == stream.events.push(batch[0]));
        assert(longer.well_formed(identity));
        assert(contiguous(from + 1, rest)) by {
            assert forall|i: int| 0 <= i < rest.len() implies (#[trigger] rest[i]).sequence == from
                + 1 + i + 1 by {
                assert(rest[i] == batch[i + 1]);
            }
        }
        assert(rest.last() == batch.last());
        lemma_overlong_batches_are_refused(longer, identity, from + 1, expected_version, rest);
    }
}

/// The sequences of the events, and the stream that they belong to, are kept by their
/// stored form.
proof fn lemma_planned_batches(request: CommitRequest<'_>, script: Vec<CommitAction>) -> (version:
    Option<usize>)
    requires
        commit_planned(request, Ok(script)),
        request.events@.len() > 0,
    ensures
        ({
            let events = event_views(request.events@);
            let stored = stored_events(events, request.payload_encoding);
            &&& events[0].sequence >= 1
            &&& version == Some((events[0].sequence - 1) as usize)
            &&& stored.len() == events.len()
            &&& contiguous(events[0].sequence - 1, stored)
            &&& forall|i: int|
                0 <= i < events.len() ==> (#[trigger] stored[i]).stream == request.stream@
                    && stored[i].sequence == events[i].sequence
            &&& script_views(script@) == append_actions(version, stored) + closing_actions(
                request.snapshot,
                stored,
                request.jobs@,
            )
        }),
{
    let events = event_views(request.events@);
    let encoding = request.payload_encoding;
    let stored = stored_events(events, encoding);
    assert(!(exists|i: int| #[trigger] first_foreign(request.stream@, events, i)));
    assert(!(exists|i: int| #[trigger] first_unstorable(events, encoding, i)));
    lemma_no_first_foreign(request.stream@, events, events.len() as int);
    let version = choose|version: Option<usize>| #[trigger]
        sequences_checked(stored, Ok(version)) && script_views(script@) == append_actions(
            version,
            stored,
        ) + closing_actions(request.snapshot, stored, request.jobs@);
    assert(stored[0] == stored_event(events[0], encoding));
    assert forall|i: int| 0 <= i < events.len() implies (#[trigger] stored[i]).stream
        == request.stream@ && stored[i].sequence == events[i].sequence by {
        assert(stored[i] == stored_event(events[i], encoding));
        assert(events[i].stream == request.stream@);
    }
    version
}

/// Where no event is the first that belongs to another stream, all belong to the stream.
proof fn lemma_no_first_foreign(stream: StreamView, events: Seq<EventView>, upto: int)
    requires
        0 <= upto <= events.len(),
        forall|i: int| !(#[trigger] first_foreign(stream, events, i)),
    ensures
        forall|i: int| 0 <= i < upto ==> (#[trigger] events[i]).stream == stream,
    decreases upto,
{
    if upto > 0 {
        lemma_no_first_foreign(stream, events, upto - 1);
        assert(!first_foreign(stream, events, upto - 1));
    }
}

/// Other rows for a stream leave the database well formed, where they are the stream's own
/// and keep its first event.
proof fn lemma_databases_take_streams(before: Database, stream: StreamView, rows: StoredStream)
    requires
        before.well_formed(),
        rows.well_formed(stream),
        before.at(stream).has(FIRST_EVENT_SEQ) ==> rows.has(FIRST_EVENT_SEQ),
    ensures
        before.with(stream, rows).well_formed(),
        before.with(stream, rows).at(stream) == rows,
        forall|other: StreamView|
            other != stream ==> #[trigger] before.with(stream, rows).at(other) == before.at(other),
{
    let after = before.with(stream, rows);
    assert forall|job_id: Seq<char>| #[trigger] after.rows.contains_key(job_id) implies after.at(
        job_stream(job_id),
    ).has(FIRST_EVENT_SEQ) by {
        assert(before.rows.contains_key(job_id));
    }
}

/// A job whose identity is free is enqueued: what it adds, and what it leaves alone.
proof fn lemma_jobs_are_added(
    before: Database,
    job: EnqueueRequest,
    encode: spec_fn(JobEvent) -> JsonView,
)
    requires
        before.well_formed(),
        !before.at(requested_stream(job)).has(FIRST_EVENT_SEQ),
    ensures
        ({
            let after = with_job(before, job, encode);
            let id = ulid_text(job.job_id.0);
            &&& after.well_formed()
            &&& !before.rows.contains_key(id)
            &&& after.at(requested_stream(job)).events.contains(job_start(job, encode))
            &&& forall|other: StreamView|
                other != requested_stream(job) ==> #[trigger] after.at(other) == before.at(other)
            &&& forall|stream: StreamView, kept: EventView|
                before.at(stream).events.contains(kept) ==> #[trigger] after.at(
                    stream,
                ).events.contains(kept)
            &&& forall|stream: StreamView|
                before.at(stream).events.len() > 0 ==> (#[trigger] after.at(stream)).last_event()
                    == before.at(stream).last_event()
            &&& forall|stream: StreamView|
                (#[trigger] after.at(stream)).covered == before.at(stream).covered
            &&& forall|stream: StreamView|
                #![trigger after.at(stream)]
                after.at(stream).has(FIRST_EVENT_SEQ) <==> stream == requested_stream(job)
                    || before.at(stream).has(FIRST_EVENT_SEQ)
        }),
{
    let stream = requested_stream(job);
    let rows = before.at(stream);
    let start = job_start(job, encode);
    let id = ulid_text(job.job_id.0);
    assert(rows.well_formed(stream));
    lemma_streams_take_events(rows, stream, start);
    let started = StoredStream { events: inserted(rows.events, start), ..rows };
    lemma_databases_take_streams(before, stream, started);
    let streams = before.with(stream, started);
    let after = with_job(before, job, encode);
    assert(after.streams == streams.streams);
    assert forall|other: StreamView| #[trigger] after.at(other) == streams.at(other) by {}
    assert(after.at(stream) == started);
    if before.rows.contains_key(id) {
        assert(before.at(job_stream(id)).has(FIRST_EVENT_SEQ));
    }
    assert forall|job_id: Seq<char>| #[trigger] after.rows.contains_key(job_id) implies after.at(
        job_stream(job_id),
    ).has(FIRST_EVENT_SEQ) by {
        if job_id != id {
            assert(streams.rows.contains_key(job_id));
        }
    }
    assert forall|other: StreamView| other != stream implies #[trigger] after.at(other)
        == before.at(other) by {
        assert(streams.at(other) == before.at(other));
    }
}

/// The actions for jobs enqueue them one by one, each whole, and then commit.
proof fn lemma_jobs_are_performed(
    stored: Database,
    before: Database,
    stream: StreamView,
    encode: spec_fn(JobEvent) -> JsonView,
    jobs: Seq<EnqueueRequest>,
)
    requires
        before.well_formed(),
    ensures
        performed(stored, before, stream, encode, job_actions(jobs)) == enqueued_into(
            before,
            jobs,
            encode,
        ),
    decreases jobs.len(),
{
    let actions = job_actions(jobs);
    reveal_with_fuel(performed, 2);
    if jobs.len() > 0 && representable(jobs[0].run_at_ms as int) {
        let job = jobs[0];
        let id = ulid_text(job.job_id.0);
        let target = requested_stream(job);
        let rows = before.at(target);
        let start = job_start(job, encode);
        let rest = job_actions(jobs.skip(1));
        let append = CommitActionView::AppendJob { job_id: id, event: enqueued(job) };
        let write = CommitActionView::WriteQueueRow { job_id: id, row: requested_row(job) };
        assert(actions =~= seq![append, write] + rest);
        assert(actions[0] == append);
        assert(actions.skip(1) =~= seq![write] + rest);
        assert(actions.skip(1)[0] == write);
        assert(actions.skip(1).skip(1) =~= rest);
        assert(rows.well_formed(target));
        assert(seq![start].skip(1).len() == 0);
        assert(seq![start][0] == start);
        reveal_with_fuel(appended, 2);
        if rows.has(FIRST_EVENT_SEQ) {
            assert(rows.version() is Ok);
        } else {
            lemma_jobs_are_added(before, job, encode);
            let started = StoredStream { events: inserted(rows.events, start), ..rows };
            assert(appended(rows, 0, seq![start]) == Ok::<_, EngineErrorView>(started));
            let next = with_job(before, job, encode);
            lemma_jobs_are_performed(stored, next, stream, encode, jobs.skip(1));
            assert(performed(stored, before, stream, encode, actions) == performed(
                stored,
                before.with(target, started),
                stream,
                encode,
                actions.skip(1),
            ));
        }
    }
}

/// Whether a job of that identity is among the requested ones.
pub open spec fn requested(jobs: Seq<EnqueueRequest>, job_id: Seq<char>) -> bool {
    exists|i: int| 0 <= i < jobs.len() && ulid_text((#[trigger] jobs[i]).job_id.0) == job_id
}

/// Jobs that were enqueued keep the database well formed and all that it held: the events
/// and the snapshot of every stream, and every row. They add to nothing but their own
/// streams and rows.
pub proof fn law_enqueueing_adds_the_jobs_alone(
    before: Database,
    jobs: Seq<EnqueueRequest>,
    encode: spec_fn(JobEvent) -> JsonView,
)
    requires
        before.well_formed(),
        enqueued_into(before, jobs, encode) is Ok,
    ensures
        ({
            let after = enqueued_into(before, jobs, encode)->Ok_0;
            &&& after.well_formed()
            &&& forall|stream: StreamView, kept: EventView|
                before.at(stream).events.contains(kept) ==> #[trigger] after.at(
                    stream,
                ).events.contains(kept)
            &&& forall|stream: StreamView|
                before.at(stream).events.len() > 0 ==> (#[trigger] after.at(stream)).last_event()
                    == before.at(stream).last_event()
            &&& forall|stream: StreamView|
                (#[trigger] after.at(stream)).covered == before.at(stream).covered
            &&& forall|job_id: Seq<char>|
                before.rows.contains_key(job_id) ==> #[trigger] after.rows.contains_key(job_id)
                    && after.rows[job_id] == before.rows[job_id]
            &&& forall|job_id: Seq<char>|
                #[trigger] after.rows.contains_key(job_id) ==> before.rows.contains_key(job_id)
                    || requested(jobs, job_id)
            &&& forall|stream: StreamView|
                (forall|i: int|
                    0 <= i < jobs.len() ==> requested_stream(#[trigger] jobs[i]) != stream)
                    ==> #[trigger] after.at(stream) == before.at(stream)
        }),
    decreases jobs.len(),
{
    if jobs.len() > 0 {
        let rest = jobs.skip(1);
        let next = with_job(before, jobs[0], encode);
        lemma_jobs_are_added(before, jobs[0], encode);
        law_enqueueing_adds_the_jobs_alone(next, rest, encode);
        let after = enqueued_into(before, jobs, encode)->Ok_0;
        assert forall|stream: StreamView, kept: EventView|
            before.at(stream).events.contains(kept) implies #[trigger] after.at(
            stream,
        ).events.contains(kept) by {
            assert(next.at(stream).events.contains(kept));
        }
        assert forall|stream: StreamView| before.at(stream).events.len() > 0 implies (
        #[trigger] after.at(stream)).last_event() == before.at(stream).last_event() by {
            let kept = before.at(stream).events[0];
            assert(before.at(stream).events.contains(kept));
            assert(next.at(stream).events.contains(kept));
            assert(next.at(stream).last_event() == before.at(stream).last_event());
        }
        assert forall|stream: StreamView| (#[trigger] after.at(stream)).covered == before.at(
            stream,
        ).covered by {
            assert(next.at(stream).covered == before.at(stream).covered);
        }
        assert forall|job_id: Seq<char>| before.rows.contains_key(job_id) implies
            #[trigger] after.rows.contains_key(job_id) && after.rows[job_id]
            == before.rows[job_id] by {
            assert(next.rows.contains_key(job_id));
        }
        assert forall|job_id: Seq<char>| #[trigger] after.rows.contains_key(job_id) implies
            before.rows.contains_key(job_id) || requested(jobs, job_id) by {
            if requested(rest, job_id) {
                let i = choose|i: int|
                    0 <= i < rest.len() && ulid_text((#[trigger] rest[i]).job_id.0) == job_id;
                assert(rest[i] == jobs[i + 1]);
            } else if job_id == ulid_text(jobs[0].job_id.0) {
                assert(requested(jobs, job_id));
            } else {
                assert(next.rows.contains_key(job_id));
            }
        }
        assert forall|stream: StreamView|
            (forall|i: int|
                0 <= i < jobs.len() ==> requested_stream(#[trigger] jobs[i]) != stream) implies
            #[trigger] after.at(stream) == before.at(stream) by {
            assert(requested_stream(jobs[0]) != stream);
            assert forall|i: int| 0 <= i < rest.len() implies requested_stream(#[trigger] rest[i])
                != stream by {
                assert(rest[i] == jobs[i + 1]);
            }
            assert(next.at(stream) == before.at(stream));
        }
    }
}

/// Every job that was enqueued has its first event and its row.
pub proof fn law_enqueued_jobs_are_stored(
    before: Database,
    jobs: Seq<EnqueueRequest>,
    encode: spec_fn(JobEvent) -> JsonView,
    index: int,
)
    requires
        before.well_formed(),
        enqueued_into(before, jobs, encode) is Ok,
        0 <= index < jobs.len(),
    ensures
        ({
            let after = enqueued_into(before, jobs, encode)->Ok_0;
            let id = ulid_text(jobs[index].job_id.0);
            &&& after.at(requested_stream(jobs[index])).events.contains(
                job_start(jobs[index], encode),
            )
            &&& after.rows.contains_key(id)
            &&& after.rows[id] == requested_row(jobs[index])
        }),
    decreases jobs.len(),
{
    let next = with_job(before, jobs[0], encode);
    let rest = jobs.skip(1);
    lemma_jobs_are_added(before, jobs[0], encode);
    if index == 0 {
        law_enqueueing_adds_the_jobs_alone(next, rest, encode);
        let after = enqueued_into(next, rest, encode)->Ok_0;
        let id = ulid_text(jobs[0].job_id.0);
        assert(next.rows.contains_key(id));
        assert(after.rows.contains_key(id));
        assert(after.at(requested_stream(jobs[0])).events.contains(job_start(jobs[0], encode)));
    } else {
        assert(rest[index - 1] == jobs[index]);
        law_enqueued_jobs_are_stored(next, rest, encode, index - 1);
    }
}

/// Jobs are enqueued together exactly where their first runs are instants and no identity
/// is taken or occurs twice.
pub proof fn law_free_identities_are_enqueued(
    before: Database,
    jobs: Seq<EnqueueRequest>,
    encode: spec_fn(JobEvent) -> JsonView,
)
    requires
        before.well_formed(),
    ensures
        enqueued_into(before, jobs, encode) is Ok <==> enqueueable(before, jobs),
    decreases jobs.len(),
{
    if jobs.len() > 0 {
        let first = jobs[0];
        let rest = jobs.skip(1);
        assert forall|i: int| 0 <= i < rest.len() implies #[trigger] rest[i] == jobs[i + 1] by {}
        if representable(first.run_at_ms as int) && !before.at(requested_stream(first)).has(
            FIRST_EVENT_SEQ,
        ) {
            let next = with_job(before, first, encode);
            lemma_jobs_are_added(before, first, encode);
            law_free_identities_are_enqueued(next, rest, encode);
            assert forall|i: int| 0 < i < jobs.len() implies ((#[trigger] jobs[i]).job_id
                == first.job_id <==> requested_stream(jobs[i]) == requested_stream(first)) by {
                law_identities_are_read_back(jobs[i].job_id.0);
                law_identities_are_read_back(first.job_id.0);
            }
            assert forall|i: int| 0 < i < jobs.len() implies (next.at(
                requested_stream(#[trigger] jobs[i]),
            ).has(FIRST_EVENT_SEQ) <==> jobs[i].job_id == first.job_id || before.at(
                requested_stream(jobs[i]),
            ).has(FIRST_EVENT_SEQ)) by {}
            if enqueueable(before, jobs) {
                assert forall|i: int| 0 <= i < rest.len() implies representable(
                    (#[trigger] rest[i]).run_at_ms as int,
                ) && !next.at(requested_stream(rest[i])).has(FIRST_EVENT_SEQ) by {
                    assert(rest[i] == jobs[i + 1]);
                    assert(jobs[0].job_id != jobs[i + 1].job_id);
                }
                assert forall|i: int, j: int| 0 <= i < j < rest.len() implies (
                #[trigger] rest[i]).job_id != (#[trigger] rest[j]).job_id by {
                    assert(jobs[i + 1].job_id != jobs[j + 1].job_id);
                }
            }
            if enqueueable(next, rest) {
                assert forall|i: int| 0 <= i < jobs.len() implies representable(
                    (#[trigger] jobs[i]).run_at_ms as int,
                ) && !before.at(requested_stream(jobs[i])).has(FIRST_EVENT_SEQ) by {
                    if i > 0 {
                        assert(rest[i - 1] == jobs[i]);
                    }
                }
                assert forall|i: int, j: int| 0 <= i < j < jobs.len() implies (
                #[trigger] jobs[i]).job_id != (#[trigger] jobs[j]).job_id by {
                    assert(rest[j - 1] == jobs[j]);
                    if i > 0 {
                        assert(rest[i - 1] == jobs[i]);
                    }
                }
            }
        }
    }
}

/// A writer whose events follow on a version below that of the stream is refused.
proof fn lemma_writers_behind_are_refused(
    stored: Database,
    request: CommitRequest<'_>,
    encode: spec_fn(JobEvent) -> JsonView,
    script: Vec<CommitAction>,
    version: usize,
)
    requires
        commit_planned(request, Ok(script)),
        request.events@.len() > 0,
        stored.at(request.stream@).version() == Ok::<_, EngineErrorView>(version),
        version >= request.events@[0].sequence,
    ensures
        request.events@[0].sequence >= 1,
        committed(stored, request, encode, script) == Err::<Database, _>(
            CommitFailure::Refused(
                EngineErrorView::OptimisticLock {
                    expected_version: (request.events@[0].sequence - 1) as usize,
                    actual_version: version,
                },
            ),
        ),
{
    let expected = lemma_planned_batches(request, script);
    let views = script_views(script@);
    assert(event_views(request.events@)[0] == request.events@[0]@);
    assert(views[0] == (CommitActionView::CheckVersion { expected_version: expected->0 }));
}

/// A writer whose events follow on a version below that of the stream is refused with both
/// versions, whatever else the commit carries. Any other commit appends its events whole,
/// also where the stream stands below that version because its events were compacted, puts
/// its snapshot in place, and enqueues its jobs; a job that cannot be enqueued fails the
/// commit with the job's error.
pub proof fn law_commits_are_whole(
    stored: Database,
    request: CommitRequest<'_>,
    encode: spec_fn(JobEvent) -> JsonView,
    script: Vec<CommitAction>,
)
    requires
        stored.well_formed(),
        commit_planned(request, Ok(script)),
        request.events@.len() > 0,
        request.events@.last().sequence <= i64::MAX,
        request.snapshot matches Some(update) ==> update.snapshot_version <= i64::MAX,
    ensures
        ({
            let expected_version = (request.events@[0].sequence - 1) as usize;
            let result = committed(stored, request, encode, script);
            let with_events = with_batch(stored, request);
            &&& request.events@[0].sequence >= 1
            &&& stored.at(request.stream@).version() matches Ok(version)
            &&& if version > expected_version {
                result == Err::<Database, _>(
                    CommitFailure::Refused(
                        EngineErrorView::OptimisticLock {
                            expected_version,
                            actual_version: version,
                        },
                    ),
                )
            } else {
                &&& with_events.well_formed()
                &&& with_events.at(request.stream@).version() == Ok::<_, EngineErrorView>(
                    request.events@.last().sequence,
                )
                &&& result == enqueued_into(with_events, request.jobs@, encode)
            }
        }),
{
    let events = event_views(request.events@);
    let batch = stored_events(events, request.payload_encoding);
    let identity = request.stream@;
    let rows = stored.at(identity);
    let planned = lemma_planned_batches(request, script);
    let expected_version = planned->0;
    assert(events[0] == request.events@[0]@);
    assert(events.last() == request.events@.last()@);
    assert(batch.last().sequence == events.last().sequence);
    assert(batch.last().sequence == expected_version + batch.len());
    assert(rows.well_formed(identity));
    assert(rows.version() is Ok);
    let version = rows.version()->Ok_0;
    let views = script_views(script@);
    let closing = closing_actions(request.snapshot, batch, request.jobs@);
    let check = CommitActionView::CheckVersion { expected_version };
    let append = CommitActionView::Append { expected_version, events: batch };
    assert(views =~= seq![check, append] + closing);
    assert(views[0] == check);
    assert(views.skip(1) =~= seq![append] + closing);
    assert(views.skip(1)[0] == append);
    assert(views.skip(1).skip(1) =~= closing);
    if version <= expected_version {
        assert forall|i: int| 0 <= i < rows.events.len() implies (
        #[trigger] rows.events[i]).sequence <= expected_version by {
            if i < rows.events.len() - 1 {
                assert(rows.events[i].sequence < rows.events[rows.events.len() - 1].sequence);
            }
        }
        assert forall|i: int| 0 <= i < batch.len() implies (#[trigger] batch[i]).stream == identity
            && batch[i].sequence <= i64::MAX by {
            assert(batch[i].sequence == expected_version + i + 1);
        }
        lemma_following_batches_are_appended(
            rows,
            identity,
            expected_version as int,
            expected_version,
            batch,
        );
        let longer = StoredStream { events: rows.events + batch, ..rows };
        let covered = StoredStream {
            covered: if request.snapshot is Some {
                Some(request.events@.last().sequence as i64)
            } else {
                rows.covered
            },
            ..longer
        };
        let pending = stored.with(identity, longer);
        let with_events = with_batch(stored, request);
        assert(longer.events.last() == batch.last());
        assert(covered.well_formed(identity));
        if rows.has(FIRST_EVENT_SEQ) {
            let i = choose|i: int|
                0 <= i < rows.events.len() && (#[trigger] rows.events[i]).sequence
                    == FIRST_EVENT_SEQ;
            assert(longer.events[i] == rows.events[i]);
            assert(covered.events[i] == rows.events[i]);
        }
        lemma_databases_take_streams(stored, identity, longer);
        lemma_databases_take_streams(stored, identity, covered);
        assert(with_events == stored.with(identity, covered));
        reveal_with_fuel(performed, 2);
        assert(performed(stored, stored, identity, encode, views) == performed(
            stored,
            stored,
            identity,
            encode,
            views.skip(1),
        ));
        assert(performed(stored, stored, identity, encode, views) == performed(
            stored,
            pending,
            identity,
            encode,
            closing,
        ));
        lemma_jobs_are_performed(stored, with_events, identity, encode, request.jobs@);
        match request.snapshot {
            None => {
                assert(with_events == pending);
            },
            Some(update) => {
                let action = snapshot_action(update.aggregate@, update.snapshot_version, batch);
                assert(closing[0] == action);
                assert(closing.skip(1) =~= job_actions(request.jobs@));
                assert(pending.at(identity) == longer);
                assert(pending.streams.insert(identity, covered) =~= with_events.streams);
                assert(pending.with(identity, covered) == with_events);
            },
        }
    }
}

/// A writer that is not behind its stream is refused where a sequence, or the version of its
/// snapshot, does not fit its column; nothing is stored then.
pub proof fn law_commits_beyond_their_columns_are_refused(
    stored: Database,
    request: CommitRequest<'_>,
    encode: spec_fn(JobEvent) -> JsonView,
    script: Vec<CommitAction>,
)
    requires
        stored.well_formed(),
        commit_planned(request, Ok(script)),
        request.events@.len() > 0,
        request.events@.last().sequence > i64::MAX || (request.snapshot matches Some(update)
            && update.snapshot_version > i64::MAX),
        stored.at(request.stream@).version()->Ok_0 < request.events@[0].sequence,
    ensures
        committed(stored, request, encode, script) == Err::<Database, _>(
            CommitFailure::Refused(EngineErrorView::Integer),
        ),
{
    let events = event_views(request.events@);
    let batch = stored_events(events, request.payload_encoding);
    let identity = request.stream@;
    let rows = stored.at(identity);
    let planned = lemma_planned_batches(request, script);
    let expected_version = planned->0;
    assert(events[0] == request.events@[0]@);
    assert(events.last() == request.events@.last()@);
    assert(batch.last().sequence == events.last().sequence);
    assert(rows.well_formed(identity));
    assert(rows.version() is Ok);
    let views = script_views(script@);
    let closing = closing_actions(request.snapshot, batch, request.jobs@);
    let check = CommitActionView::CheckVersion { expected_version };
    let append = CommitActionView::Append { expected_version, events: batch };
    assert(views =~= seq![check, append] + closing);
    assert(views[0] == check);
    assert(views.skip(1) =~= seq![append] + closing);
    assert(views.skip(1)[0] == append);
    assert(views.skip(1).skip(1) =~= closing);
    assert forall|i: int| 0 <= i < rows.events.len() implies (#[trigger] rows.events[i]).sequence
        <= expected_version by {
        if i < rows.events.len() - 1 {
            assert(rows.events[i].sequence < rows.events[rows.events.len() - 1].sequence);
        }
    }
    let from = expected_version as int;
    reveal_with_fuel(performed, 3);
    if batch.last().sequence > i64::MAX {
        lemma_overlong_batches_are_refused(rows, identity, from, expected_version, batch);
    } else {
        assert forall|i: int| 0 <= i < batch.len() implies (#[trigger] batch[i]).stream == identity
            && batch[i].sequence <= i64::MAX by {
            assert(batch[i].sequence == expected_version + i + 1);
            assert(batch.last().sequence == expected_version + batch.len());
        }
        lemma_following_batches_are_appended(rows, identity, from, expected_version, batch);
        assert(closing[0] is Abort);
    }
}

/// A commit without events enqueues its jobs, and has no snapshot to put in place.
pub proof fn law_commits_of_jobs_alone_are_whole(
    stored: Database,
    request: CommitRequest<'_>,
    encode: spec_fn(JobEvent) -> JsonView,
    script: Vec<CommitAction>,
)
    requires
        stored.well_formed(),
        commit_planned(request, Ok(script)),
        request.events@.len() == 0,
    ensures
        committed(stored, request, encode, script) == if request.snapshot is Some {
            Err(CommitFailure::Refused(EngineErrorView::EmptySnapshotUpdate))
        } else {
            enqueued_into(stored, request.jobs@, encode)
        },
{
    let events = event_views(request.events@);
    let batch = stored_events(events, request.payload_encoding);
    let views = script_views(script@);
    assert forall|i: int| !(#[trigger] first_foreign(request.stream@, events, i)) by {}
    assert forall|i: int| !(#[trigger] first_unstorable(events, request.payload_encoding, i)) by {}
    let version = choose|version: Option<usize>| #[trigger]
        sequences_checked(batch, Ok(version)) && views == append_actions(version, batch)
            + closing_actions(request.snapshot, batch, request.jobs@);
    assert(version is None);
    let closing = closing_actions(request.snapshot, batch, request.jobs@);
    assert(append_actions(version, batch) + closing =~= closing);
    lemma_jobs_are_performed(stored, stored, request.stream@, encode, request.jobs@);
    if request.snapshot is Some {
        assert(closing[0] is Abort);
    }
}

/// The jobs of a commit are enqueued if and only if its events are stored: after the commit
/// either all of them are there, each job with its first event and its row, or the database
/// is as it was. They are all there exactly where the writer is not behind its stream and
/// every job can be enqueued. Nothing else is touched: no other stream, and no other row.
pub proof fn law_jobs_commit_with_their_events(
    stored: Database,
    request: CommitRequest<'_>,
    encode: spec_fn(JobEvent) -> JsonView,
    script: Vec<CommitAction>,
)
    requires
        stored.well_formed(),
        commit_planned(request, Ok(script)),
        request.events@.len() > 0,
        request.events@.last().sequence <= i64::MAX,
        request.snapshot matches Some(update) ==> update.snapshot_version <= i64::MAX,
    ensures
        ({
            let batch = stored_events(event_views(request.events@), request.payload_encoding);
            let result = committed(stored, request, encode, script);
            let after = left_by(stored, result);
            &&& result is Ok <==> stored.at(request.stream@).version()->Ok_0
                < request.events@[0].sequence && enqueueable(
                with_batch(stored, request),
                request.jobs@,
            )
            &&& result is Err ==> after == stored
            &&& result is Ok ==> {
                &&& after.well_formed()
                &&& after.at(request.stream@).version() == Ok::<_, EngineErrorView>(
                    request.events@.last().sequence,
                )
                &&& forall|event: EventView| #[trigger]
                    batch.contains(event) ==> after.at(request.stream@).events.contains(event)
                &&& forall|i: int|
                    0 <= i < request.jobs@.len() ==> ({
                        let job = #[trigger] request.jobs@[i];
                        &&& after.at(requested_stream(job)).events.contains(job_start(job, encode))
                        &&& after.rows.contains_key(ulid_text(job.job_id.0))
                        &&& after.rows[ulid_text(job.job_id.0)] == requested_row(job)
                    })
                &&& forall|stream: StreamView|
                    (forall|i: int|
                        0 <= i < request.jobs@.len() ==> requested_stream(
                            #[trigger] request.jobs@[i],
                        ) != stream) ==> #[trigger] after.at(stream) == with_batch(
                        stored,
                        request,
                    ).at(stream)
                &&& forall|job_id: Seq<char>|
                    stored.rows.contains_key(job_id) ==> #[trigger] after.rows.contains_key(job_id)
                        && after.rows[job_id] == stored.rows[job_id]
                &&& forall|job_id: Seq<char>| #[trigger]
                    after.rows.contains_key(job_id) ==> stored.rows.contains_key(job_id)
                        || requested(request.jobs@, job_id)
            }
        }),
{
    law_commits_are_whole(stored, request, encode, script);
    let with_events = with_batch(stored, request);
    let result = committed(stored, request, encode, script);
    let identity = request.stream@;
    let batch = stored_events(event_views(request.events@), request.payload_encoding);
    if stored.at(identity).version()->Ok_0 < request.events@[0].sequence {
        law_free_identities_are_enqueued(with_events, request.jobs@, encode);
        let own = with_events.at(identity);
        assert(own.events == stored.at(identity).events + batch);
        if result is Ok {
            let after = result->Ok_0;
            law_enqueueing_adds_the_jobs_alone(with_events, request.jobs@, encode);
            assert(event_views(request.events@).len() == request.events@.len());
            assert(own.events.len() > 0);
            assert(after.at(identity).last_event() == own.last_event());
            assert(after.at(identity).covered == own.covered);
            assert forall|event: EventView| #[trigger] batch.contains(event) implies after.at(
                identity,
            ).events.contains(event) by {
                let i = choose|i: int| 0 <= i < batch.len() && batch[i] == event;
                assert(own.events[stored.at(identity).events.len() + i] == event);
                assert(own.events.contains(event));
            }
            assert forall|i: int| 0 <= i < request.jobs@.len() implies ({
                let job = #[trigger] request.jobs@[i];
                &&& after.at(requested_stream(job)).events.contains(job_start(job, encode))
                &&& after.rows.contains_key(ulid_text(job.job_id.0))
                &&& after.rows[ulid_text(job.job_id.0)] == requested_row(job)
            }) by {
                law_enqueued_jobs_are_stored(with_events, request.jobs@, encode, i);
            }
        }
    }
}

/// Of two writers that follow on the same version the second is refused, with the version
/// that the first one left.
pub proof fn law_second_writers_are_refused(
    stored: Database,
    first: CommitRequest<'_>,
    first_script: Vec<CommitAction>,
    after: Database,
    second: CommitRequest<'_>,
    second_script: Vec<CommitAction>,
    encode: spec_fn(JobEvent) -> JsonView,
)
    requires
        stored.well_formed(),
        commit_planned(first, Ok(first_script)),
        first.events@.len() > 0,
        first.events@.last().sequence <= i64::MAX,
        first.snapshot matches Some(update) ==> update.snapshot_version <= i64::MAX,
        committed(stored, first, encode, first_script) == Ok::<_, CommitFailure>(after),
        commit_planned(second, Ok(second_script)),
        second.stream@ == first.stream@,
        second.events@.len() > 0,
        second.events@[0].sequence == first.events@[0].sequence,
    ensures
        committed(after, second, encode, second_script) == Err::<Database, _>(
            CommitFailure::Refused(
                EngineErrorView::OptimisticLock {
                    expected_version: (first.events@[0].sequence - 1) as usize,
                    actual_version: first.events@.last().sequence,
                },
            ),
        ),
{
    let version = first.events@.last().sequence;
    assert(after.at(first.stream@).version() == Ok::<_, EngineErrorView>(version)) by {
        law_jobs_commit_with_their_events(stored, first, encode, first_script);
    }
    assert(version >= first.events@[0].sequence) by {
        let planned = lemma_planned_batches(first, first_script);
        let batch = stored_events(event_views(first.events@), first.payload_encoding);
        assert(event_views(first.events@)[0] == first.events@[0]@);
        assert(event_views(first.events@).last() == first.events@.last()@);
        assert(batch.last().sequence == planned->0 + batch.len());
    }
    lemma_writers_behind_are_refused(after, second, encode, second_script, version);
}

} // verus!
