//! Records and stored jobs as bytes.

use event_sorcery::codec::{
    CodecError, decode_job_record, decode_stored_job, encode_job_record, encode_stored_job,
};
use event_sorcery::model::{
    AttemptCount, ClaimCount, DeadReason, Instant, JobPayload, JobRecord, JobStatus,
    LeaseToken, StoredJob,
};

#[test]
fn stored_job_matches_the_versioned_cddl_bytes() {
    let job = StoredJob::new("email", JobPayload::new([1, 2]));
    let expected = vec![
        0x83, 0x01, 0x65, b'e', b'm', b'a', b'i', b'l', 0x42, 0x01, 0x02,
    ];

    assert_eq!(encode_stored_job(&job), Ok(expected.clone()));
    assert_eq!(decode_stored_job(&expected), Ok(job));
}

#[test]
fn job_record_matches_the_versioned_cddl_bytes() {
    let record = JobRecord::new(
        JobPayload::new([1, 2]),
        JobStatus::Scheduled(Instant::from_millis(1_000)),
        LeaseToken::new(3),
        AttemptCount::new(4),
        ClaimCount::new(5),
    );
    let expected = vec![
        0x86, 0x01, 0x42, 0x01, 0x02, 0x82, 0x01, 0x19, 0x03, 0xe8, 0x03, 0x04, 0x05,
    ];

    assert_eq!(encode_job_record(&record), Ok(expected.clone()));
    assert_eq!(decode_job_record(&expected), Ok(record));
}

#[test]
fn every_job_status_round_trips() {
    let statuses = [
        JobStatus::Ready,
        JobStatus::Scheduled(Instant::from_millis(10)),
        JobStatus::Leased(Instant::from_millis(20)),
        JobStatus::Completed,
        JobStatus::DeadLettered(DeadReason::RetriesExhausted),
        JobStatus::DeadLettered(DeadReason::Rejected),
        JobStatus::DeadLettered(DeadReason::Undecodable),
        JobStatus::DeadLettered(DeadReason::Abandoned),
    ];

    for status in statuses {
        let record = JobRecord::new(
            JobPayload::new([9]),
            status,
            LeaseToken::new(1),
            AttemptCount::new(2),
            ClaimCount::new(3),
        );
        let encoded = encode_job_record(&record);
        let Ok(bytes) = encoded else {
            panic!("valid job record must encode")
        };
        assert_eq!(decode_job_record(&bytes), Ok(record));
    }
}

#[test]
fn decoder_rejects_noncanonical_and_indefinite_encodings() {
    let non_shortest_version = [0x86, 0x18, 0x01, 0x41, 0x09, 0x81, 0x00, 0x00, 0x00, 0x00];
    let indefinite_record = [0x9f, 0x01, 0x41, 0x09, 0x81, 0x00, 0x00, 0x00, 0x00, 0xff];

    assert_eq!(
        decode_job_record(&non_shortest_version),
        Err(CodecError::NonCanonical)
    );
    assert_eq!(
        decode_job_record(&indefinite_record),
        Err(CodecError::NonCanonical)
    );
}

#[test]
fn decoder_rejects_wrong_versions_tags_and_floats() {
    let wrong_version = [0x83, 0x02, 0x61, b'x', 0x40];
    let tagged_payload = [0x83, 0x01, 0x61, b'x', 0xc0, 0x40];
    let float_token = [0x86, 0x01, 0x40, 0x81, 0x00, 0xf9, 0x00, 0x00, 0x00, 0x00];

    assert_eq!(
        decode_stored_job(&wrong_version),
        Err(CodecError::InvalidShape("stored-job format version"))
    );
    assert_eq!(
        decode_stored_job(&tagged_payload),
        Err(CodecError::InvalidShape("stored-job payload"))
    );
    assert_eq!(
        decode_job_record(&float_token),
        Err(CodecError::InvalidShape("job-record token"))
    );
}
#[test]
fn decoder_reports_what_is_wrong() {
    let Err(CodecError::Decode(message)) = decode_stored_job(&[]) else {
        panic!("an empty input must not decode");
    };
    assert!(!message.is_empty());

    let negative_token = [0x86, 0x01, 0x40, 0x81, 0x00, 0x20, 0x00, 0x00];
    assert_eq!(
        decode_job_record(&negative_token),
        Err(CodecError::IntegerOutOfRange("job-record token"))
    );
    assert_eq!(
        decode_job_record(&[0x01]),
        Err(CodecError::InvalidShape("job-record"))
    );
    let unknown_reason = [0x86, 0x01, 0x40, 0x82, 0x04, 0x09, 0x00, 0x00, 0x00];
    assert_eq!(
        decode_job_record(&unknown_reason),
        Err(CodecError::InvalidShape("dead-reason"))
    );
}

#[test]
fn trailing_bytes_are_not_canonical() {
    let job = StoredJob::new("email", JobPayload::new([1, 2]));
    let Ok(mut bytes) = encode_stored_job(&job) else {
        panic!("valid stored job must encode");
    };
    bytes.push(0);

    assert_eq!(decode_stored_job(&bytes), Err(CodecError::NonCanonical));
}
