//! Payload envelopes, commits and what is read back from storage.

use event_sorcery::commit::{
    after_append, check_version, committed_stream_version, plan_commit, validate_event_sequences,
    validate_event_stream, CommitAction, CommitRequest, JobSeed,
};
use event_sorcery::engine::{
    decode_engine_payload, encode_engine_payload, reserves_engine_payload, CommitPayloadEncoding,
    EngineError, EnginePayload, JsonFailure, LoadedPayload, SerializedEvent, SerializedSnapshot,
    SnapshotUpdate, StreamIdentity, ENGINE_PAYLOAD_KEY,
};
use event_sorcery::entity::{CompactionPolicy, EventSourced};
use event_sorcery::job::{
    plan_claim, ClaimId, DeadReason, JobEvent, JobId, JobKind, JobState, JobStoreError, WorkerId,
    FIRST_CLAIM_SEQ,
};
use event_sorcery::job_store::{ClaimDecision, ClaimOutcome, ClaimRead, LeaseRenewal};
use event_sorcery::json::Json;
use event_sorcery::lifecycle::Lifecycle;
use event_sorcery::storage::{
    appended_version, claim_settlement, claim_write, claim_written, enqueued_row,
    enqueued_version, event_from_row, events_from_rows, first_job_event, fitting_page_limit,
    guarded_snapshot, job_event, loaded_from_row,
    page_window, persisted_stream, persistence_kind, renewal_outcome, replay_step,
    row_from_event, snapshot_from_row, PersistenceKind, QueueRow, ReplayStep, SqliteJobError,
    StoredEventRow, StoredSnapshotRow, TransactionOutcome, FIRST_EVENT_SEQ,
};

fn object(entries: Vec<(&str, Json)>) -> Json {
    Json::Object(
        entries
            .into_iter()
            .map(|(key, value)| (key.to_string(), value))
            .collect(),
    )
}

fn numbers(values: &[u64]) -> Json {
    Json::Array(values.iter().map(|value| Json::Unsigned(*value)).collect())
}

fn event(stream: &StreamIdentity, sequence: usize, payload: Json) -> SerializedEvent {
    SerializedEvent {
        aggregate_id: stream.aggregate_id.clone(),
        sequence,
        aggregate_type: stream.aggregate_type.clone(),
        event_type: "Tested".to_string(),
        event_version: "1.0".to_string(),
        payload,
        metadata: object(vec![]),
    }
}

fn numbered(stream: &StreamIdentity, sequence: usize) -> SerializedEvent {
    event(
        stream,
        sequence,
        object(vec![("sequence", Json::Unsigned(sequence as u64))]),
    )
}

fn row(sequence: i64, payload: &str, metadata: &str) -> StoredEventRow {
    StoredEventRow {
        aggregate_type: "engine-test".to_string(),
        aggregate_id: "one".to_string(),
        sequence,
        event_type: "Tested".to_string(),
        event_version: "1.0".to_string(),
        payload: payload.to_string(),
        metadata: metadata.to_string(),
    }
}

#[test]
fn stored_payloads_under_an_unknown_envelope_version_are_rejected() {
    let payload = object(vec![(
        ENGINE_PAYLOAD_KEY,
        object(vec![
            ("version", Json::Unsigned(2)),
            ("payload", object(vec![("opaque_bytes", numbers(&[1, 2, 3]))])),
        ]),
    )]);

    let error = decode_engine_payload(payload).unwrap_err();

    assert!(matches!(
        error,
        EngineError::UnsupportedPayloadVersion { version: 2 }
    ));
}

#[test]
fn stored_payloads_under_a_corrupt_envelope_are_rejected() {
    let payload = object(vec![(
        ENGINE_PAYLOAD_KEY,
        object(vec![("version", Json::Unsigned(1))]),
    )]);

    let error = decode_engine_payload(payload).unwrap_err();

    assert!(matches!(error, EngineError::Json(_)));
}

#[test]
fn corrupt_envelopes_are_handed_out_with_their_error() {
    let envelope = || object(vec![("version", Json::Unsigned(1))]);
    let payload = object(vec![(ENGINE_PAYLOAD_KEY, envelope())]);

    let Err(EngineError::Json(JsonFailure::Envelope(found))) = decode_engine_payload(payload)
    else {
        panic!("a corrupt envelope is an error");
    };

    assert_eq!(found, envelope());
}

#[test]
fn stored_payloads_without_the_reserved_key_stay_domain_json() {
    let payload = object(vec![("sequence", Json::Unsigned(1))]);

    let decoded = decode_engine_payload(payload.duplicate()).unwrap();

    assert_eq!(decoded, LoadedPayload::Json(payload));
}

#[test]
fn snapshot_attachment_requires_persisted_events() {
    let stream = StreamIdentity::new("engine-test", "empty-snapshot");
    let request = CommitRequest::new(stream, &[]).with_snapshot(SnapshotUpdate::new(
        object(vec![("sequence", Json::Unsigned(0))]),
        1,
    ));

    assert!(matches!(request, Err(EngineError::EmptySnapshotUpdate)));
}

#[test]
fn payloads_that_use_the_reserved_key_are_escaped_and_read_back() {
    let stream = StreamIdentity::new("engine-reserved-key-test", "one");
    let domain = || object(vec![("domain", Json::Bool(true))]);
    let lone = || object(vec![(ENGINE_PAYLOAD_KEY, domain())]);
    let beside_sibling = || {
        object(vec![
            (ENGINE_PAYLOAD_KEY, domain()),
            ("sequence", Json::Unsigned(2)),
        ])
    };
    assert!(reserves_engine_payload(&lone()));
    assert!(!reserves_engine_payload(&domain()));
    let events = [event(&stream, 1, lone()), event(&stream, 2, beside_sibling())];

    let script = plan_commit(CommitRequest::new(stream, &events)).unwrap();

    let [
        CommitAction::CheckVersion { expected_version: 0 },
        CommitAction::Append {
            expected_version: 0,
            events: stored,
        },
        CommitAction::Commit,
    ] = script.as_slice()
    else {
        panic!("expected an append, got {script:?}");
    };
    assert_ne!(stored[0].payload, lone());
    assert_eq!(
        decode_engine_payload(stored[0].payload.duplicate()).unwrap(),
        LoadedPayload::Json(lone())
    );
    assert_eq!(
        decode_engine_payload(stored[1].payload.duplicate()).unwrap(),
        LoadedPayload::Json(beside_sibling())
    );
}

#[test]
fn opaque_payloads_are_read_back_as_bytes() {
    let stream = StreamIdentity::new("engine-opaque-test", "one");
    let bytes = [0_u64, 1, 0xff, 0xfe, 0x80];
    let events = [event(&stream, 1, numbers(&bytes))];

    let script = plan_commit(CommitRequest::new(stream.clone(), &events).with_opaque_payloads())
        .unwrap();

    let CommitAction::Append { events: stored, .. } = &script[1] else {
        panic!("expected an append");
    };
    assert_eq!(
        decode_engine_payload(stored[0].payload.duplicate()).unwrap(),
        LoadedPayload::OpaqueBytes(vec![0, 1, 0xff, 0xfe, 0x80])
    );
    let too_wide = [event(&stream, 1, numbers(&[256]))];
    assert!(matches!(
        plan_commit(CommitRequest::new(stream.clone(), &too_wide).with_opaque_payloads()),
        Err(EngineError::Json(JsonFailure::Reader(message)))
            if message == "invalid value: integer `256`, expected u8"
    ));
    let no_array = [event(&stream, 1, Json::Text("bytes".to_string()))];
    assert!(matches!(
        plan_commit(CommitRequest::new(stream, &no_array).with_opaque_payloads()),
        Err(EngineError::Json(JsonFailure::Reader(message)))
            if message == "invalid type: string \"bytes\", expected a sequence"
    ));
    assert_eq!(
        CommitRequest::new(StreamIdentity::new("a", "b"), &[]).payload_encoding,
        CommitPayloadEncoding::NativeJson
    );
}

#[test]
fn commits_take_the_events_of_one_stream_without_a_gap() {
    let stream = StreamIdentity::new("engine-test", "one");
    let other = StreamIdentity::new("engine-test", "other");

    let mixed = [numbered(&stream, 1), numbered(&other, 2)];
    assert!(matches!(
        validate_event_stream(&stream, &mixed),
        Err(EngineError::StreamIdentityMismatch { expected, actual })
            if expected == stream && actual == other
    ));
    assert!(matches!(
        plan_commit(CommitRequest::new(stream.clone(), &mixed)),
        Err(EngineError::StreamIdentityMismatch { .. })
    ));

    let gap = [numbered(&stream, 4), numbered(&stream, 6)];
    assert!(matches!(
        plan_commit(CommitRequest::new(stream.clone(), &gap)),
        Err(EngineError::NonContiguousSequences {
            expected_version: 3,
            offending: 6
        })
    ));
    let below_the_first = [numbered(&stream, 0)];
    assert!(matches!(
        validate_event_sequences(&below_the_first),
        Err(EngineError::NonContiguousSequences {
            expected_version: 0,
            offending: 0
        })
    ));
    assert!(matches!(validate_event_sequences(&[]), Ok(None)));
    let fine = [numbered(&stream, 4), numbered(&stream, 5)];
    assert!(matches!(validate_event_sequences(&fine), Ok(Some(3))));
}

#[test]
fn snapshots_and_jobs_are_committed_with_their_events() {
    let stream = StreamIdentity::new("engine-test", "one");
    let events = [numbered(&stream, 1), numbered(&stream, 2)];
    let snapshot = SnapshotUpdate::new(object(vec![("sequence", Json::Unsigned(2))]), 1);
    let seed = JobSeed::new(JobId(5), "send-email", serde_json::Value::Null, 1_000);

    let request = CommitRequest::new(stream.clone(), &events)
        .with_snapshot(snapshot)
        .unwrap()
        .with_job(seed);
    let script = plan_commit(request).unwrap();

    assert_eq!(script.len(), 6);
    assert!(matches!(
        &script[2],
        CommitAction::WriteSnapshot { last_sequence: 2, snapshot_version: 1, aggregate }
            if aggregate == "{\"sequence\":2}"
    ));
    assert!(matches!(
        &script[3],
        CommitAction::AppendJob { job_id, event: JobEvent::Enqueued { run_at: 1_000, .. } }
            if *job_id == JobId(5).to_string()
    ));
    assert!(matches!(
        &script[4],
        CommitAction::WriteQueueRow {
            row: QueueRow {
                version: 1,
                state: JobState::Pending { attempt: 0, claims: 0, .. },
                lease_until_ms: None,
            },
            ..
        }
    ));
    assert!(matches!(&script[5], CommitAction::Commit));

    let bad_seed = JobSeed::new(JobId(6), "send-email", serde_json::Value::Null, i64::MAX);
    let script = plan_commit(CommitRequest::new(stream, &events).with_job(bad_seed)).unwrap();
    assert!(matches!(
        script.last(),
        Some(CommitAction::Abort(EngineError::JobFlush(
            JobStoreError::InvalidInstant(i64::MAX)
        )))
    ));
}

#[test]
fn commits_without_events_write_only_their_jobs() {
    let stream = StreamIdentity::new("engine-test", "one");
    let seed = JobSeed::new(JobId(5), "send-email", serde_json::Value::Null, 1_000);

    let script = plan_commit(CommitRequest::new(stream.clone(), &[]).with_job(seed)).unwrap();

    assert!(matches!(&script[0], CommitAction::AppendJob { .. }));
    assert_eq!(script.len(), 3);
    let empty = plan_commit(CommitRequest::new(stream, &[]).with_jobs(vec![])).unwrap();
    assert!(matches!(empty.as_slice(), [CommitAction::Commit]));
}

#[test]
fn writers_behind_the_stream_are_refused() {
    assert!(check_version(3, 3).is_ok());
    assert!(check_version(4, 3).is_ok());
    assert!(matches!(
        check_version(3, 4),
        Err(EngineError::OptimisticLock {
            expected_version: 3,
            actual_version: 4
        })
    ));
    assert!(after_append(3, None).is_ok());
    assert!(matches!(
        after_append(3, Some(4)),
        Err(EngineError::OptimisticLock {
            expected_version: 3,
            actual_version: 4
        })
    ));
    assert!(matches!(committed_stream_version(None, None), Ok(0)));
    assert!(matches!(committed_stream_version(Some(3), Some(7)), Ok(7)));
    assert!(matches!(committed_stream_version(Some(9), Some(7)), Ok(9)));
    assert!(matches!(
        committed_stream_version(Some(-1), Some(-2)),
        Err(EngineError::Integer)
    ));
}

#[test]
fn of_two_writers_at_one_version_the_second_is_refused() {
    let stream = StreamIdentity::new("engine-test", "one");
    let batch = [numbered(&stream, 4), numbered(&stream, 5)];
    let expected = |events: &[SerializedEvent]| {
        let script = plan_commit(CommitRequest::new(stream.clone(), events)).unwrap();
        let CommitAction::CheckVersion { expected_version } = script[0] else {
            panic!("the version is checked first");
        };
        expected_version
    };

    assert!(check_version(expected(&batch), 3).is_ok());
    assert!(check_version(expected(&batch), 0).is_ok());
    let after = committed_stream_version(Some(5), None).unwrap();
    assert_eq!(after, 5);
    assert!(matches!(
        check_version(expected(&batch), after),
        Err(EngineError::OptimisticLock {
            expected_version: 3,
            actual_version: 5
        })
    ));
}

#[test]
fn rows_are_read_back_through_their_text() {
    let found = event_from_row(&row(3, "{\"sequence\":1,\"text\":\"a\"}", "{}")).unwrap();
    assert_eq!(
        found.payload,
        object(vec![
            ("sequence", Json::Unsigned(1)),
            ("text", Json::Text("a".to_string())),
        ])
    );
    assert_eq!(found.sequence, 3);
    let loaded = loaded_from_row(row(3, "[-1,true,null,0]", "{}")).unwrap();
    assert_eq!(
        loaded.payload,
        LoadedPayload::Json(Json::Array(vec![
            Json::Negative(-1),
            Json::Bool(true),
            Json::Null,
            Json::Unsigned(0),
        ]))
    );
    assert!(matches!(
        event_from_row(&row(-1, "{}", "{}")),
        Err(EngineError::Integer)
    ));
    assert!(matches!(
        event_from_row(&row(1, "{", "{}")),
        Err(EngineError::Json(_))
    ));
    assert!(matches!(
        loaded_from_row(row(1, "{}", "nope")),
        Err(EngineError::Json(_))
    ));
    assert!(events_from_rows(vec![row(1, "{}", "{}"), row(2, "{", "{}")]).is_err());
    assert_eq!(
        events_from_rows(vec![row(1, "{}", "{}"), row(2, "{}", "{}")])
            .unwrap()
            .len(),
        2
    );
    assert!(matches!(
        replay_step(Some(row(1, "{}", "{}"))),
        ReplayStep::Push(_)
    ));
    assert!(matches!(
        replay_step(Some(row(1, "{", "{}"))),
        ReplayStep::Fail(_)
    ));
    assert!(matches!(replay_step(None), ReplayStep::Finish));
}

#[test]
fn escaped_payloads_come_out_of_their_rows_unescaped() {
    let lone = || object(vec![(ENGINE_PAYLOAD_KEY, Json::Null)]);
    let envelope = encode_engine_payload(EnginePayload::EscapedJson(lone()));
    let text = format!(
        "{{\"{ENGINE_PAYLOAD_KEY}\":{{\"payload\":{{\"escaped_json\":{{\"{ENGINE_PAYLOAD_KEY}\":null}}}},\"version\":1}}}}"
    );

    let found = event_from_row(&row(1, &text, "{}")).unwrap();

    assert_eq!(found.payload, lone());
    assert_eq!(
        decode_engine_payload(envelope).unwrap(),
        LoadedPayload::Json(lone())
    );
}

#[test]
fn snapshots_are_read_back_and_guarded() {
    let stored = |sequence| StoredSnapshotRow {
        aggregate_id: "one".to_string(),
        last_sequence: sequence,
        snapshot_version: 2,
        payload: "{}".to_string(),
    };
    let snapshot = snapshot_from_row(stored(4)).unwrap();
    assert_eq!((snapshot.current_sequence, snapshot.current_snapshot), (4, 2));
    assert!(matches!(
        snapshot_from_row(stored(-4)),
        Err(EngineError::Integer)
    ));

    let snapshot = || {
        Some(SerializedSnapshot {
            aggregate_id: "one".to_string(),
            aggregate: object(vec![]),
            current_sequence: 4,
            current_snapshot: 2,
        })
    };
    let unreadable = || Some("unknown field".to_string());
    assert!(matches!(
        guarded_snapshot(CompactionPolicy::Retain, snapshot(), unreadable()),
        Ok(Some(_))
    ));
    assert!(matches!(
        guarded_snapshot(CompactionPolicy::CompactAfterSnapshot, snapshot(), unreadable()),
        Err(EngineError::Json(JsonFailure::Reader(message))) if message == "unknown field"
    ));
    assert!(matches!(
        guarded_snapshot(CompactionPolicy::CompactAfterSnapshot, snapshot(), None),
        Ok(Some(_))
    ));
    assert!(matches!(
        guarded_snapshot(CompactionPolicy::CompactAfterSnapshot, None, unreadable()),
        Ok(None)
    ));
}

#[test]
fn pages_are_cut_by_their_bytes() {
    assert!(matches!(fitting_page_limit(vec![], 10), Ok(0)));
    assert!(matches!(fitting_page_limit(vec![4, 6, 1], 10), Ok(2)));
    assert!(matches!(fitting_page_limit(vec![4, 6, 1], 100), Ok(3)));
    assert!(matches!(
        fitting_page_limit(vec![11, 1], 10),
        Err(EngineError::EventPageTooLarge {
            observed: 11,
            limit: 10
        })
    ));
    assert!(matches!(
        fitting_page_limit(vec![1, -1], 10),
        Err(EngineError::Integer)
    ));
    assert!(matches!(page_window(Some(3), 10), Ok((Some(3), 10))));
    assert!(matches!(page_window(None, 10), Ok((None, 10))));
    assert!(matches!(
        page_window(Some(usize::MAX), 10),
        Err(EngineError::Integer)
    ));
    assert!(matches!(
        page_window(None, usize::MAX),
        Err(EngineError::Integer)
    ));
}

fn pending_state() -> JobState {
    JobState::Pending {
        kind: JobKind::new("k"),
        payload: serde_json::Value::Null,
        run_at: 0,
        attempt: 0,
        claims: 0,
    }
}

#[test]
fn claims_write_their_event_before_their_row() {
    let decision = ClaimDecision::Claim {
        event: JobEvent::Claimed {
            worker: WorkerId::new("w"),
            claim_id: ClaimId("c".to_string()),
            lease_until: 9,
        },
        sequence: 2,
        state: pending_state(),
        lease_until_ms: 9,
        won: "won",
    };

    let Ok(write) = claim_write(decision) else {
        panic!("a claim writes");
    };
    assert_eq!((write.sequence, write.lease_until_ms), (2, Some(9)));
    let (row, outcome) = claim_written(write, Some(2));
    let row = row.unwrap();
    assert_eq!((row.version, row.lease_until_ms), (2, Some(9)));
    assert!(matches!(
        claim_settlement(outcome),
        TransactionOutcome::Commit(ClaimOutcome::Won("won"))
    ));

    let abandon = || ClaimDecision::<()>::Abandon {
        event: JobEvent::Dead {
            reason: DeadReason::Abandoned,
            error: String::new(),
        },
        sequence: 3,
        state: JobState::Dead {
            reason: DeadReason::Abandoned,
        },
    };
    let Ok(write) = claim_write(abandon()) else {
        panic!("giving up writes");
    };
    assert_eq!(write.lease_until_ms, None);
    let (row, outcome) = claim_written(write, None);
    assert!(row.is_none());
    assert!(matches!(
        claim_settlement(outcome),
        TransactionOutcome::Rollback(ClaimOutcome::Contended)
    ));
    assert!(matches!(
        claim_write(ClaimDecision::<()>::Skip),
        Err(ClaimOutcome::Skip)
    ));
    assert!(matches!(
        claim_settlement(ClaimOutcome::<()>::Skip),
        TransactionOutcome::Rollback(ClaimOutcome::Skip)
    ));
}

#[test]
fn job_events_are_stored_in_the_stream_of_their_job() {
    let event = JobEvent::Claimed {
        worker: WorkerId::new("w"),
        claim_id: ClaimId("c".to_string()),
        lease_until: 9,
    };
    let payload = || object(vec![("Claimed", Json::Null)]);

    let stored = job_event("01J", 2, &event, payload());

    assert!(StreamIdentity::new("job", "01J").matches(&stored));
    assert_eq!(stored.sequence, 2);
    assert_eq!(stored.event_type, "JobClaimed");
    assert_eq!(stored.event_version, "1.0");
    assert_eq!(stored.payload, payload());
    assert_eq!(stored.metadata, Json::Object(vec![]));
    let row = row_from_event(&stored).unwrap();
    assert_eq!((row.payload.as_str(), row.metadata.as_str()), ("{\"Claimed\":null}", "{}"));
}

#[test]
fn jobs_start_with_their_first_event_and_row() {
    let event = JobEvent::Enqueued {
        kind: JobKind::new("k"),
        payload: serde_json::Value::Null,
        run_at: 0,
    };

    let stored = first_job_event("01J", &event, Json::Null);
    let row = enqueued_row(pending_state());

    assert_eq!((FIRST_EVENT_SEQ, stored.sequence), (1, 1));
    assert_eq!(stored.event_type, "JobEnqueued");
    assert_eq!((row.version, row.lease_until_ms), (1, None));
    assert_eq!(row.state, pending_state());
    assert_eq!(FIRST_CLAIM_SEQ, row.version + 1);
}

#[test]
fn a_won_claim_moves_its_own_job() {
    let read = Some(ClaimRead {
        version: enqueued_row(pending_state()).version,
        payload: String::new(),
        lease_until_ms: None,
    });
    let worker = WorkerId::new("w");
    let decision = plan_claim(
        read,
        Some(Lifecycle::Live(pending_state())),
        &worker,
        100,
        30,
        5,
    );

    let Ok(write) = claim_write(decision) else {
        panic!("a due job is claimed");
    };
    assert_eq!(write.sequence, 2);
    let folded = JobState::evolve(&pending_state(), &write.event).unwrap();
    assert_eq!(folded.as_ref(), Some(&write.state));
    let appended = appended_version(write.sequence, false).unwrap();
    let (row, outcome) = claim_written(write, appended);
    let row = row.unwrap();
    assert_eq!((row.version, row.lease_until_ms), (2, Some(130)));
    assert_eq!(Some(row.state), folded);
    assert!(matches!(outcome, ClaimOutcome::Won(won) if won.claim_seq == row.version));
}

#[test]
fn job_streams_begin_once() {
    assert!(matches!(appended_version(1, false), Ok(Some(1))));
    assert!(matches!(appended_version(1, true), Ok(None)));
    assert!(matches!(
        appended_version(usize::MAX, false),
        Err(SqliteJobError::Sequence)
    ));
    assert!(matches!(
        enqueued_version(Some(1), "job".to_string()),
        Ok(1)
    ));
    assert!(matches!(
        enqueued_version(None, "job".to_string()),
        Err(SqliteJobError::DuplicateEnqueue { job_id }) if job_id == "job"
    ));
    assert_eq!(renewal_outcome(0), LeaseRenewal::Lost);
    assert_eq!(renewal_outcome(1), LeaseRenewal::Held);
}

#[test]
fn engine_errors_are_reported_by_their_kind() {
    let lock = EngineError::OptimisticLock {
        expected_version: 1,
        actual_version: 2,
    };

    assert_eq!(persistence_kind(&lock), PersistenceKind::OptimisticLock);
    assert_eq!(
        persistence_kind(&EngineError::Json(JsonFailure::Reader("x".to_string()))),
        PersistenceKind::Deserialization
    );
    assert_eq!(
        persistence_kind(&EngineError::Integer),
        PersistenceKind::Unknown
    );
    let stream = StreamIdentity::new("engine-test", "one");
    let events = [numbered(&stream, 1)];
    assert_eq!(persisted_stream("engine-test", &events, None), stream);
    assert_eq!(
        persisted_stream("engine-test", &events, Some("two")),
        StreamIdentity::new("engine-test", "two")
    );
    assert_eq!(
        persisted_stream("engine-test", &[], None),
        StreamIdentity::new("engine-test", "")
    );
}

/// The events of a commit, as they are appended.
fn appended(script: Vec<CommitAction>) -> Vec<SerializedEvent> {
    script
        .into_iter()
        .find_map(|action| match action {
            CommitAction::Append { events, .. } => Some(events),
            _ => None,
        })
        .unwrap()
}

#[test]
fn committed_events_are_read_back_from_their_rows() {
    let stream = StreamIdentity::new("engine-test", "one");
    let payload = object(vec![
        (ENGINE_PAYLOAD_KEY, Json::Negative(-4)),
        ("list", Json::Array(vec![Json::Null, Json::Bool(true), Json::Text("x".to_string())])),
    ]);
    let given = [event(&stream, 1, payload), numbered(&stream, 2)];

    let events = appended(plan_commit(CommitRequest::new(stream, &given)).unwrap());

    for (given, stored) in given.iter().zip(&events) {
        let row = row_from_event(stored).unwrap();
        assert_eq!(&event_from_row(&row).unwrap(), given);
        let loaded = loaded_from_row(row).unwrap();
        assert_eq!(loaded.payload, LoadedPayload::Json(given.payload.duplicate()));
        assert_eq!(loaded.sequence, given.sequence);
    }
    assert_eq!(row_from_event(&events[1]).unwrap().payload, r#"{"sequence":2}"#);
    assert_eq!(row_from_event(&events[1]).unwrap().metadata, "{}");
}

#[test]
fn committed_bytes_are_read_back_from_their_rows() {
    let stream = StreamIdentity::new("engine-test", "one");
    let given = [event(&stream, 1, numbers(&[0, 7, 255]))];

    let request = CommitRequest::new(stream, &given).with_opaque_payloads();
    let events = appended(plan_commit(request).unwrap());
    let row = row_from_event(&events[0]).unwrap();

    let loaded = loaded_from_row(row).unwrap();
    assert_eq!(loaded.payload, LoadedPayload::OpaqueBytes(vec![0, 7, 255]));
}

#[test]
fn sequences_beyond_the_column_have_no_row() {
    let stream = StreamIdentity::new("engine-test", "one");
    let beyond = i64::MAX as usize + 1;

    let error = row_from_event(&numbered(&stream, beyond)).err().unwrap();

    assert!(matches!(error, EngineError::Integer));
    assert!(row_from_event(&numbered(&stream, i64::MAX as usize)).is_ok());
}

#[test]
fn payloads_are_read_back_down_to_the_deepest_level() {
    let stream = StreamIdentity::new("engine-test", "one");
    let nested = |levels: usize| {
        let mut value = Json::Array(vec![]);
        for _ in 1..levels {
            value = Json::Array(vec![value]);
        }
        event(&stream, 1, value)
    };

    let deepest = nested(127);
    let row = row_from_event(&deepest).unwrap();
    assert_eq!(event_from_row(&row).unwrap(), deepest);

    let too_deep = row_from_event(&nested(128)).unwrap();
    assert!(matches!(event_from_row(&too_deep), Err(EngineError::Json(_))));
}

#[test]
fn committed_snapshots_are_read_back_from_their_rows() {
    let stream = StreamIdentity::new("engine-test", "one");
    let given = [numbered(&stream, 1), numbered(&stream, 2)];
    let aggregate = object(vec![("balance", Json::Unsigned(9))]);

    let request = CommitRequest::new(stream, &given)
        .with_snapshot(SnapshotUpdate::new(aggregate.duplicate(), 3))
        .unwrap();
    let (last_sequence, snapshot_version, payload) = plan_commit(request)
        .unwrap()
        .into_iter()
        .find_map(|action| match action {
            CommitAction::WriteSnapshot { last_sequence, snapshot_version, aggregate } => {
                Some((last_sequence, snapshot_version, aggregate))
            }
            _ => None,
        })
        .unwrap();

    let snapshot = snapshot_from_row(StoredSnapshotRow {
        aggregate_id: "one".to_string(),
        last_sequence,
        snapshot_version,
        payload,
    })
    .unwrap();
    assert_eq!(snapshot.aggregate, aggregate);
    assert_eq!(snapshot.current_sequence, 2);
    assert_eq!(snapshot.current_snapshot, 3);
}
