//! What commits make of the events, the snapshots and the jobs of a database.

use std::collections::BTreeMap;

use event_sorcery::commit::{
    after_append, check_version, committed_stream_version, plan_commit, CommitAction,
    CommitRequest, JobSeed,
};
use event_sorcery::engine::{EngineError, SerializedEvent, SnapshotUpdate, StreamIdentity};
use event_sorcery::entity::EventSourced;
use event_sorcery::job::{
    buffer, plan_claim_as, prepare_pending, ClaimId, EnqueueRequest, JobEvent, JobId, JobKind,
    JobState, JobStoreError, PendingJobs, PendingPush, WorkerId,
};
use event_sorcery::job_store::{ClaimOutcome, ClaimRead, LeaseRenewal};
use event_sorcery::json::Json;
use event_sorcery::lifecycle::Lifecycle;
use event_sorcery::storage::{
    appended_version, claim_write, claim_written, enqueued_row, enqueued_version, first_job_event,
    persistence_kind, renewal_outcome, row_from_event, PersistenceKind, QueueRow, FIRST_EVENT_SEQ,
};

type Stream = (String, String);

/// A database in memory: the types of the events by their sequences, the sequences that
/// snapshots cover, and the rows of the queue.
#[derive(Clone, Debug, Default, PartialEq)]
struct Database {
    events: BTreeMap<Stream, BTreeMap<usize, String>>,
    covered: BTreeMap<Stream, i64>,
    rows: BTreeMap<String, (i64, String, Option<i64>)>,
}

impl Database {
    fn version(&self, stream: &Stream) -> usize {
        let last = self
            .events
            .get(stream)
            .and_then(|events| events.keys().last())
            .map(|sequence| *sequence as i64);
        committed_stream_version(last, self.covered.get(stream).copied()).unwrap()
    }

    fn append(&mut self, expected: usize, event: SerializedEvent) -> Result<(), EngineError> {
        let stream = (event.aggregate_type.clone(), event.aggregate_id.clone());
        row_from_event(&event)?;
        let version = self.version(&stream);
        let events = self.events.entry(stream).or_default();
        let taken = events.contains_key(&event.sequence);
        after_append(expected, if taken { Some(version) } else { None })?;
        events.insert(event.sequence, event.event_type);
        Ok(())
    }

    fn insert_row(&mut self, job_id: String, row: QueueRow) {
        let held = (row.version, format!("{:?}", row.state), row.lease_until_ms);
        assert!(self.rows.insert(job_id, held).is_none());
    }

    /// Performs a commit, in a transaction.
    fn commit(&mut self, request: CommitRequest<'_>) -> Result<(), EngineError> {
        let stream = (
            request.stream.aggregate_type.clone(),
            request.stream.aggregate_id.clone(),
        );
        let mut pending = self.clone();
        for action in plan_commit(request)? {
            match action {
                CommitAction::CheckVersion { expected_version } => {
                    check_version(expected_version, pending.version(&stream))?;
                }
                CommitAction::Append { expected_version, events } => {
                    for event in events {
                        pending.append(expected_version, event)?;
                    }
                }
                CommitAction::WriteSnapshot { last_sequence, .. } => {
                    pending.covered.insert(stream.clone(), last_sequence);
                }
                CommitAction::AppendJob { job_id, event } => {
                    let first = first_job_event(&job_id, &event, Json::Null);
                    pending.append(FIRST_EVENT_SEQ - 1, first)?;
                }
                CommitAction::WriteQueueRow { job_id, row } => pending.insert_row(job_id, row),
                CommitAction::Commit => {
                    *self = pending;
                    return Ok(());
                }
                CommitAction::Abort(error) => return Err(error),
            }
        }
        panic!("a script ends the transaction");
    }

    /// Enqueues a job by itself.
    fn enqueue(&mut self, job_id: JobId, event: JobEvent) {
        let id = job_id.to_string();
        let state = JobState::originate(&event).unwrap();
        self.append(0, first_job_event(&id, &event, Json::Null)).unwrap();
        assert!(matches!(enqueued_version(Some(1), id.clone()), Ok(1)));
        self.insert_row(id, enqueued_row(state));
    }

    fn count(&self, aggregate_type: &str, aggregate_id: &str) -> usize {
        self.events
            .get(&(aggregate_type.to_string(), aggregate_id.to_string()))
            .map_or(0, BTreeMap::len)
    }
}

fn covering_events(aggregate_id: &str, through: usize) -> Vec<SerializedEvent> {
    (1..=through)
        .map(|sequence| SerializedEvent {
            aggregate_type: "test".to_string(),
            aggregate_id: aggregate_id.to_string(),
            sequence,
            event_type: "Created".to_string(),
            event_version: "1.0".to_string(),
            payload: Json::Text("Created".to_string()),
            metadata: Json::Object(vec![]),
        })
        .collect()
}

fn pending_job(job_id: JobId) -> PendingPush {
    PendingPush {
        job_id,
        kind: JobKind::new("test-job"),
        payload: Ok(serde_json::Value::Null),
        delay: None,
    }
}

fn scope_with(job_id: JobId) -> Option<PendingJobs> {
    let mut scope = Some(PendingJobs { pushes: vec![] });
    buffer(&mut scope, pending_job(job_id)).unwrap();
    scope
}

/// Commits the first event of an aggregate, and the jobs that are pending.
fn persist(
    database: &mut Database,
    aggregate_id: &str,
    scope: &mut Option<PendingJobs>,
) -> Result<(), EngineError> {
    let events = covering_events(aggregate_id, 1);
    let mut prepared = prepare_pending(scope).unwrap();
    let request = CommitRequest::new(StreamIdentity::new("test", aggregate_id), &events)
        .with_jobs(prepared.take_requests());
    database.commit(request)?;
    prepared.mark_committed(scope);
    Ok(())
}

fn seed(job_id: u128, run_at_ms: i64) -> JobSeed {
    JobSeed::new(JobId(job_id), "test-job", serde_json::Value::Null, run_at_ms)
}

#[test]
fn aggregate_event_job_event_and_queue_seed_commit_together() {
    let mut database = Database::default();
    let job_id = JobId::new();

    persist(&mut database, "atomic-success", &mut scope_with(job_id)).unwrap();

    let aggregate_events = database.count("test", "atomic-success");
    let job_id = job_id.to_string();
    let job_events = database.count("job", &job_id);
    let queue_rows = usize::from(database.rows.contains_key(&job_id));
    assert_eq!((aggregate_events, job_events, queue_rows), (1, 1, 1));
    assert_eq!(database.rows[&job_id].0, 1);
    assert_eq!(database.rows[&job_id].2, None);
}

#[test]
fn job_identity_conflict_rolls_back_the_aggregate_event() {
    let mut database = Database::default();
    let job_id = JobId::new();
    database.enqueue(
        job_id,
        JobEvent::Enqueued {
            kind: JobKind::new("existing-job"),
            payload: serde_json::Value::String("existing".to_string()),
            run_at: 0,
        },
    );
    let job_id_string = job_id.to_string();
    let queue_row_before_conflict = database.rows[&job_id_string].clone();

    let result = persist(&mut database, "atomic-rollback", &mut scope_with(job_id));

    let error = result.unwrap_err();
    assert_eq!(persistence_kind(&error), PersistenceKind::OptimisticLock);
    assert!(matches!(
        error,
        EngineError::OptimisticLock { expected_version: 0, actual_version: 1 }
    ));
    assert_eq!(database.count("test", "atomic-rollback"), 0);
    assert_eq!(database.count("job", &job_id_string), 1);
    assert_eq!(database.rows[&job_id_string], queue_row_before_conflict);
}

#[test]
fn failed_commit_preserves_the_pending_job_for_retry() {
    let mut database = Database::default();
    persist(&mut database, "conflict", &mut None).unwrap();
    let job_id = JobId::new();
    let mut scope = scope_with(job_id);

    let failed = persist(&mut database, "conflict", &mut scope);
    assert_eq!(
        persistence_kind(&failed.unwrap_err()),
        PersistenceKind::OptimisticLock
    );
    persist(&mut database, "retry", &mut scope).unwrap();

    let job_id = job_id.to_string();
    let retry_events = database.count("test", "retry");
    let job_events = database.count("job", &job_id);
    let queue_rows = usize::from(database.rows.contains_key(&job_id));
    assert_eq!((retry_events, job_events, queue_rows), (1, 1, 1));
    assert!(scope.unwrap().pushes.is_empty());
}

#[test]
fn jobs_of_one_identity_are_not_committed_together() {
    let stream = || StreamIdentity::new("test", "one");
    let events = covering_events("one", 2);
    let mut database = Database::default();

    let twice = CommitRequest::new(stream(), &events)
        .with_job(seed(5, 10))
        .with_job(seed(5, 20));
    assert!(matches!(
        database.commit(twice),
        Err(EngineError::OptimisticLock { expected_version: 0, actual_version: 1 })
    ));
    assert_eq!(database, Database::default());

    let late = CommitRequest::new(stream(), &events)
        .with_job(seed(5, 10))
        .with_job(seed(6, i64::MAX));
    assert!(matches!(
        database.commit(late),
        Err(EngineError::JobFlush(JobStoreError::InvalidInstant(i64::MAX)))
    ));
    assert_eq!(database, Database::default());

    let two = CommitRequest::new(stream(), &events)
        .with_job(seed(5, 10))
        .with_job(seed(6, 20));
    database.commit(two).unwrap();
    assert_eq!(database.count("test", "one"), 2);
    assert_eq!(database.rows.len(), 2);
}

#[test]
fn writers_behind_their_stream_enqueue_nothing() {
    let stream = || StreamIdentity::new("test", "one");
    let events = covering_events("one", 3);
    let mut database = Database::default();
    let first = CommitRequest::new(stream(), &events)
        .with_snapshot(SnapshotUpdate::new(Json::Null, 1))
        .unwrap()
        .with_job(seed(5, 10));
    database.commit(first).unwrap();
    let before = database.clone();

    let second = CommitRequest::new(stream(), &events[..1]).with_job(seed(6, 10));

    assert!(matches!(
        database.commit(second),
        Err(EngineError::OptimisticLock { expected_version: 0, actual_version: 3 })
    ));
    assert_eq!(database, before);
    assert_eq!(database.covered.len(), 1);
}

#[test]
fn commits_beyond_their_columns_store_nothing() {
    let stream = || StreamIdentity::new("test", "one");
    let mut events = covering_events("one", 2);
    let mut database = Database::default();

    let snapshot = CommitRequest::new(stream(), &events)
        .with_snapshot(SnapshotUpdate::new(Json::Null, usize::MAX))
        .unwrap()
        .with_job(seed(5, 10));
    assert!(matches!(database.commit(snapshot), Err(EngineError::Integer)));
    assert_eq!(database, Database::default());

    events[0].sequence = i64::MAX as usize;
    events[1].sequence = i64::MAX as usize + 1;
    let request = CommitRequest::new(stream(), &events).with_job(seed(5, 10));
    assert!(matches!(database.commit(request), Err(EngineError::Integer)));
    assert_eq!(database, Database::default());

    let request = CommitRequest::new(stream(), &events[..1]).with_job(seed(5, 10));
    database.commit(request).unwrap();
    assert_eq!(database.count("test", "one"), 1);
}

#[test]
fn jobs_are_committed_without_events() {
    let stream = || StreamIdentity::new("test", "one");
    let mut database = Database::default();

    database
        .commit(CommitRequest::new(stream(), &[]).with_job(seed(5, 10)))
        .unwrap();
    assert_eq!(database.rows.len(), 1);
    assert_eq!(database.count("job", &JobId(5).to_string()), 1);

    let mut snapshot = CommitRequest::new(stream(), &[]).with_job(seed(6, 10));
    snapshot.snapshot = Some(SnapshotUpdate::new(Json::Null, 1));
    assert!(matches!(
        database.commit(snapshot),
        Err(EngineError::EmptySnapshotUpdate)
    ));
    assert_eq!(database.rows.len(), 1);
}

#[test]
fn a_job_may_be_enqueued_into_the_stream_that_is_committed() {
    let job_id = JobId(5).to_string();
    let stream = || StreamIdentity::new("job", &job_id);
    let claimed = SerializedEvent {
        aggregate_type: "job".to_string(),
        aggregate_id: job_id.clone(),
        ..covering_events("one", 2).pop().unwrap()
    };
    let mut database = Database::default();

    let events = [claimed];
    database
        .commit(CommitRequest::new(stream(), &events).with_job(seed(5, 10)))
        .unwrap();

    let stored = &database.events[&("job".to_string(), job_id.clone())];
    let sequences: Vec<usize> = stored.keys().copied().collect();
    assert_eq!(sequences, vec![1, 2]);
    assert_eq!(stored[&1], "JobEnqueued");
}

/// Claims the job of a row at `now_ms`, and gives the row that follows.
fn claim(row: &QueueRow, state: JobState, claim_id: &str, now_ms: i64) -> (QueueRow, i64) {
    let read = ClaimRead {
        version: row.version,
        payload: String::new(),
        lease_until_ms: row.lease_until_ms,
    };
    let decision = plan_claim_as(
        Some(read),
        Some(Lifecycle::Live(state)),
        &WorkerId::new("w"),
        now_ms,
        30,
        5,
        ClaimId(claim_id.to_string()),
        0,
    );
    let Ok(write) = claim_write(decision) else {
        panic!("a job that is due is claimed");
    };
    let appended = appended_version(write.sequence, false).unwrap();
    let (row, outcome) = claim_written(write, appended);
    let ClaimOutcome::Won(won) = outcome else {
        panic!("the claim is won");
    };
    (row.unwrap(), won.claim_seq)
}

/// Renews the lease of a row as the claim with that sequence.
fn renew(row: &mut QueueRow, claim_seq: i64, lease_until_ms: i64) -> LeaseRenewal {
    let found = row.version == claim_seq && matches!(row.state, JobState::Claimed { .. });
    if found {
        row.lease_until_ms = Some(lease_until_ms);
    }
    renewal_outcome(u64::from(found))
}

#[test]
fn leases_are_renewed_by_the_last_claim_alone() {
    let enqueued = JobEvent::Enqueued {
        kind: JobKind::new("k"),
        payload: serde_json::Value::Null,
        run_at: 0,
    };
    let state = JobState::originate(&enqueued).unwrap();
    let mut start = enqueued_row(JobState::originate(&enqueued).unwrap());
    assert_eq!(renew(&mut start, 1, 50), LeaseRenewal::Lost);

    let (mut row, first) = claim(&start, state, "a", 100);
    assert_eq!((row.version, first, row.lease_until_ms), (2, 2, Some(130)));
    assert_eq!(renew(&mut row, first, 140), LeaseRenewal::Held);
    assert_eq!(renew(&mut row, first, 150), LeaseRenewal::Held);
    assert_eq!((row.version, row.lease_until_ms), (2, Some(150)));

    let held = JobState::evolve(
        &JobState::originate(&enqueued).unwrap(),
        &JobEvent::Claimed {
            worker: WorkerId::new("w"),
            claim_id: ClaimId("a".to_string()),
            lease_until: 130,
        },
    )
    .unwrap()
    .unwrap();
    let (mut row, second) = claim(&row, held, "b", 200);
    assert_eq!((row.version, second), (3, 3));
    assert_eq!(renew(&mut row, first, 300), LeaseRenewal::Lost);
    assert_eq!(row.lease_until_ms, Some(230));
    assert_eq!(renew(&mut row, second, 300), LeaseRenewal::Held);

    let done = JobState::evolve(&row.state, &JobEvent::Succeeded).unwrap().unwrap();
    let mut finished = QueueRow {
        version: row.version + 1,
        state: done,
        lease_until_ms: row.lease_until_ms,
    };
    for claim_seq in [first, second, finished.version] {
        assert_eq!(renew(&mut finished, claim_seq, 400), LeaseRenewal::Lost);
    }
    assert_eq!(finished.state, JobState::Done);
}

#[test]
fn requests_and_seeds_ask_for_the_same_job() {
    let request = EnqueueRequest {
        job_id: JobId(5),
        kind: JobKind::new("test-job"),
        payload: serde_json::Value::Null,
        run_at_ms: 10,
    };
    let stream = || StreamIdentity::new("test", "one");
    let (mut one, mut other) = (Database::default(), Database::default());

    one.commit(CommitRequest::new(stream(), &[]).with_jobs(vec![request])).unwrap();
    other.commit(CommitRequest::new(stream(), &[]).with_job(seed(5, 10))).unwrap();

    assert_eq!(one, other);
}
