//! The stored form of jobs: versioned CBOR arrays in canonical encoding.
//!
//! A record is `[1, payload, status, token, attempts, claims]`, a stored job is
//! `[1, job type, payload]`. What is read back must be, byte for byte, what would
//! be written.

use vstd::prelude::*;
use vstd::slice::slice_to_vec;

use crate::cbor::{
    cbor_decoded, cbor_encoded, from_reader, into_writer, plain, CborValue, CborView,
    MAX_WRITTEN_DEPTH,
};
use crate::model::{
    AttemptCount, ClaimCount, DeadReason, Instant, JobPayload, JobRecord, JobRecordView, JobStatus,
    LeaseToken, StoredJob, StoredJobView,
};

verus! {

/// Why bytes are not a job, or a job has no bytes.
#[derive(Clone, Debug, Eq, PartialEq)]
pub enum CodecError {
    Decode(String),
    Encode(String),
    InvalidShape(&'static str),
    IntegerOutOfRange(&'static str),
    NonCanonical,
}

/// A codec error with its text as a sequence of characters.
pub enum CodecErrorView {
    Decode(Seq<char>),
    Encode(Seq<char>),
    InvalidShape(Seq<char>),
    IntegerOutOfRange(Seq<char>),
    NonCanonical,
}

impl View for CodecError {
    type V = CodecErrorView;

    open spec fn view(&self) -> CodecErrorView {
        match self {
            CodecError::Decode(message) => CodecErrorView::Decode(message@),
            CodecError::Encode(message) => CodecErrorView::Encode(message@),
            CodecError::InvalidShape(name) => CodecErrorView::InvalidShape(name@),
            CodecError::IntegerOutOfRange(name) => CodecErrorView::IntegerOutOfRange(name@),
            CodecError::NonCanonical => CodecErrorView::NonCanonical,
        }
    }
}

/// A result with its error as a view.
pub open spec fn seen<T>(result: Result<T, CodecError>) -> Result<T, CodecErrorView> {
    match result {
        Ok(value) => Ok(value),
        Err(error) => Err(error@),
    }
}

/// A record that was read, or the error, as views.
pub open spec fn seen_record(result: Result<JobRecord, CodecError>) -> Result<
    JobRecordView,
    CodecErrorView,
> {
    match result {
        Ok(record) => Ok(record@),
        Err(error) => Err(error@),
    }
}

/// A stored job that was read, or the error, as views.
pub open spec fn seen_job(result: Result<StoredJob, CodecError>) -> Result<
    StoredJobView,
    CodecErrorView,
> {
    match result {
        Ok(job) => Ok(job@),
        Err(error) => Err(error@),
    }
}

/// The number of a reason.
pub open spec fn reason_tag(reason: DeadReason) -> u64 {
    match reason {
        DeadReason::RetriesExhausted => 0,
        DeadReason::Rejected => 1,
        DeadReason::Undecodable => 2,
        DeadReason::Abandoned => 3,
    }
}

/// The item that stands for a status: its number, then what it carries.
pub open spec fn status_item(status: JobStatus) -> CborView {
    CborView::Array(
        match status {
            JobStatus::Ready => seq![CborView::Integer(0)],
            JobStatus::Scheduled(run_at) => seq![
                CborView::Integer(1),
                CborView::Integer(run_at.0 as int),
            ],
            JobStatus::Leased(expires) => seq![
                CborView::Integer(2),
                CborView::Integer(expires.0 as int),
            ],
            JobStatus::Completed => seq![CborView::Integer(3)],
            JobStatus::DeadLettered(reason) => seq![
                CborView::Integer(4),
                CborView::Integer(reason_tag(reason) as int),
            ],
        },
    )
}

/// The item that stands for a record.
pub open spec fn record_item(record: JobRecordView) -> CborView {
    CborView::Array(
        seq![
            CborView::Integer(1),
            CborView::Bytes(record.payload),
            status_item(record.status),
            CborView::Integer(record.token.0 as int),
            CborView::Integer(record.attempts.0 as int),
            CborView::Integer(record.claims.0 as int),
        ],
    )
}

/// The item that stands for a stored job.
pub open spec fn job_item(job: StoredJobView) -> CborView {
    CborView::Array(
        seq![CborView::Integer(1), CborView::Text(job.job_type), CborView::Bytes(job.payload)],
    )
}

/// The item as an unsigned number, or what is wrong with the field `name`.
pub open spec fn number_of(item: CborView, name: Seq<char>) -> Result<u64, CodecErrorView> {
    match item {
        CborView::Integer(number) => if 0 <= number <= u64::MAX {
            Ok(number as u64)
        } else {
            Err(CodecErrorView::IntegerOutOfRange(name))
        },
        _ => Err(CodecErrorView::InvalidShape(name)),
    }
}

/// What is wrong with a format version, which must be 1.
pub open spec fn version_error(item: CborView, name: Seq<char>) -> Option<CodecErrorView> {
    match number_of(item, name) {
        Ok(version) => if version == 1 {
            None
        } else {
            Some(CodecErrorView::InvalidShape(name))
        },
        Err(error) => Some(error),
    }
}

/// The reason that an item stands for.
pub open spec fn reason_of(item: CborView) -> Result<DeadReason, CodecErrorView> {
    match number_of(item, "dead-reason"@) {
        Ok(tag) => if tag == 0 {
            Ok(DeadReason::RetriesExhausted)
        } else if tag == 1 {
            Ok(DeadReason::Rejected)
        } else if tag == 2 {
            Ok(DeadReason::Undecodable)
        } else if tag == 3 {
            Ok(DeadReason::Abandoned)
        } else {
            Err(CodecErrorView::InvalidShape("dead-reason"@))
        },
        Err(error) => Err(error),
    }
}

/// The status that an item stands for.
pub open spec fn status_of(item: CborView) -> Result<JobStatus, CodecErrorView> {
    match item {
        CborView::Array(fields) if fields.len() > 0 => match number_of(
            fields[0],
            "job-status tag"@,
        ) {
            Ok(tag) => if tag == 0 && fields.len() == 1 {
                Ok(JobStatus::Ready)
            } else if tag == 1 && fields.len() == 2 {
                match number_of(fields[1], "job-status run_at"@) {
                    Ok(run_at) => Ok(JobStatus::Scheduled(Instant(run_at))),
                    Err(error) => Err(error),
                }
            } else if tag == 2 && fields.len() == 2 {
                match number_of(fields[1], "job-status expires"@) {
                    Ok(expires) => Ok(JobStatus::Leased(Instant(expires))),
                    Err(error) => Err(error),
                }
            } else if tag == 3 && fields.len() == 1 {
                Ok(JobStatus::Completed)
            } else if tag == 4 && fields.len() == 2 {
                match reason_of(fields[1]) {
                    Ok(reason) => Ok(JobStatus::DeadLettered(reason)),
                    Err(error) => Err(error),
                }
            } else {
                Err(CodecErrorView::InvalidShape("job-status"@))
            },
            Err(error) => Err(error),
        },
        _ => Err(CodecErrorView::InvalidShape("job-status"@)),
    }
}

/// What is wrong with the fields of a record, the first fault from the left.
pub open spec fn record_error(fields: Seq<CborView>) -> Option<CodecErrorView> {
    if fields.len() != 6 {
        Some(CodecErrorView::InvalidShape("job-record"@))
    } else if version_error(fields[0], "job-record format version"@) is Some {
        version_error(fields[0], "job-record format version"@)
    } else if !(fields[1] is Bytes) {
        Some(CodecErrorView::InvalidShape("job-record payload"@))
    } else if status_of(fields[2]) is Err {
        Some(status_of(fields[2])->Err_0)
    } else if number_of(fields[3], "job-record token"@) is Err {
        Some(number_of(fields[3], "job-record token"@)->Err_0)
    } else if number_of(fields[4], "job-record attempts"@) is Err {
        Some(number_of(fields[4], "job-record attempts"@)->Err_0)
    } else if number_of(fields[5], "job-record claims"@) is Err {
        Some(number_of(fields[5], "job-record claims"@)->Err_0)
    } else {
        None
    }
}

/// The record that an item stands for.
pub open spec fn record_of(item: CborView) -> Result<JobRecordView, CodecErrorView> {
    match item {
        CborView::Array(fields) => match record_error(fields) {
            Some(error) => Err(error),
            None => Ok(
                JobRecordView {
                    payload: fields[1]->Bytes_0,
                    status: status_of(fields[2])->Ok_0,
                    token: LeaseToken(number_of(fields[3], "job-record token"@)->Ok_0),
                    attempts: AttemptCount(number_of(fields[4], "job-record attempts"@)->Ok_0),
                    claims: ClaimCount(number_of(fields[5], "job-record claims"@)->Ok_0),
                },
            ),
        },
        _ => Err(CodecErrorView::InvalidShape("job-record"@)),
    }
}

/// What is wrong with the fields of a stored job, the first fault from the left.
pub open spec fn job_error(fields: Seq<CborView>) -> Option<CodecErrorView> {
    if fields.len() != 3 {
        Some(CodecErrorView::InvalidShape("stored-job"@))
    } else if version_error(fields[0], "stored-job format version"@) is Some {
        version_error(fields[0], "stored-job format version"@)
    } else if !(fields[1] is Text) {
        Some(CodecErrorView::InvalidShape("stored-job job type"@))
    } else if !(fields[2] is Bytes) {
        Some(CodecErrorView::InvalidShape("stored-job payload"@))
    } else {
        None
    }
}

/// The stored job that an item stands for.
pub open spec fn job_of(item: CborView) -> Result<StoredJobView, CodecErrorView> {
    match item {
        CborView::Array(fields) => match job_error(fields) {
            Some(error) => Err(error),
            None => Ok(StoredJobView { job_type: fields[1]->Text_0, payload: fields[2]->Bytes_0 }),
        },
        _ => Err(CodecErrorView::InvalidShape("stored-job"@)),
    }
}

/// The record that bytes stand for: they hold a record's item and are what is
/// written for it.
pub open spec fn decoded_record(bytes: Seq<u8>) -> Result<JobRecordView, CodecErrorView> {
    match cbor_decoded(bytes) {
        Err(message) => Err(CodecErrorView::Decode(message)),
        Ok(item) => match record_of(item) {
            Err(error) => Err(error),
            Ok(record) => if bytes == cbor_encoded(record_item(record)) {
                Ok(record)
            } else {
                Err(CodecErrorView::NonCanonical)
            },
        },
    }
}

/// The stored job that bytes stand for: they hold a job's item and are what is
/// written for it.
pub open spec fn decoded_job(bytes: Seq<u8>) -> Result<StoredJobView, CodecErrorView> {
    match cbor_decoded(bytes) {
        Err(message) => Err(CodecErrorView::Decode(message)),
        Ok(item) => match job_of(item) {
            Err(error) => Err(error),
            Ok(job) => if bytes == cbor_encoded(job_item(job)) {
                Ok(job)
            } else {
                Err(CodecErrorView::NonCanonical)
            },
        },
    }
}

/// Writes a record; reading the bytes gives it back.
pub fn encode_job_record(record: &JobRecord) -> (result: Result<Vec<u8>, CodecError>)
    ensures
        result matches Ok(bytes) && bytes@ == cbor_encoded(record_item(record@))
            && decoded_record(bytes@) == Ok::<_, CodecErrorView>(record@),
{
    let item = job_record_value(record);
    proof {
        law_record_items_are_read_back(record@);
    }
    encode(&item)
}

/// Reads a record in canonical form.
pub fn decode_job_record(bytes: &[u8]) -> (result: Result<JobRecord, CodecError>)
    ensures
        seen_record(result) == decoded_record(bytes@),
{
    let value = match decode(bytes) {
        Ok(value) => value,
        Err(error) => return Err(error),
    };
    let record = match parse_job_record(&value) {
        Ok(record) => record,
        Err(error) => return Err(error),
    };
    let canonical = match encode_job_record(&record) {
        Ok(canonical) => canonical,
        Err(error) => return Err(error),
    };
    match require_canonical(bytes, canonical.as_slice()) {
        Ok(()) => Ok(record),
        Err(error) => Err(error),
    }
}

/// Writes a stored job; reading the bytes gives it back.
pub fn encode_stored_job(job: &StoredJob) -> (result: Result<Vec<u8>, CodecError>)
    ensures
        result matches Ok(bytes) && bytes@ == cbor_encoded(job_item(job@)) && decoded_job(bytes@)
            == Ok::<_, CodecErrorView>(job@),
{
    let item = stored_job_value(job);
    proof {
        law_job_items_are_read_back(job@);
    }
    encode(&item)
}

/// Reads a stored job in canonical form.
pub fn decode_stored_job(bytes: &[u8]) -> (result: Result<StoredJob, CodecError>)
    ensures
        seen_job(result) == decoded_job(bytes@),
{
    let value = match decode(bytes) {
        Ok(value) => value,
        Err(error) => return Err(error),
    };
    let job = match parse_stored_job(&value) {
        Ok(job) => job,
        Err(error) => return Err(error),
    };
    let canonical = match encode_stored_job(&job) {
        Ok(canonical) => canonical,
        Err(error) => return Err(error),
    };
    match require_canonical(bytes, canonical.as_slice()) {
        Ok(()) => Ok(job),
        Err(error) => Err(error),
    }
}

/// Writes an item.
fn encode(value: &CborValue) -> (result: Result<Vec<u8>, CodecError>)
    requires
        plain(value@, MAX_WRITTEN_DEPTH as nat),
    ensures
        result matches Ok(bytes) && bytes@ == cbor_encoded(value@) && cbor_decoded(bytes@) == Ok::<
            _,
            Seq<char>,
        >(value@),
{
    match into_writer(value) {
        Ok(bytes) => Ok(bytes),
        Err(message) => Err(CodecError::Encode(message)),
    }
}

/// Reads the item at the start of the bytes.
fn decode(bytes: &[u8]) -> (result: Result<CborValue, CodecError>)
    ensures
        match cbor_decoded(bytes@) {
            Ok(item) => result matches Ok(value) && value@ == item,
            Err(message) => result matches Err(error) && error@ == CodecErrorView::Decode(message),
        },
{
    match from_reader(bytes) {
        Ok(value) => Ok(value),
        Err(message) => Err(CodecError::Decode(message)),
    }
}

/// Reads a record from an item.
pub fn parse_job_record(value: &CborValue) -> (result: Result<JobRecord, CodecError>)
    ensures
        seen_record(result) == record_of(value@),
{
    let CborValue::Array(fields) = value else {
        return Err(CodecError::InvalidShape("job-record"));
    };
    if fields.len() != 6 {
        return Err(CodecError::InvalidShape("job-record"));
    }
    match require_version(&fields[0], "job-record format version") {
        Ok(()) => {},
        Err(error) => return Err(error),
    }
    let ghost payload_item = fields[1]@;
    let CborValue::Bytes(payload) = &fields[1] else {
        return Err(CodecError::InvalidShape("job-record payload"));
    };
    let status = match parse_job_status(&fields[2]) {
        Ok(status) => status,
        Err(error) => return Err(error),
    };
    let token: u64 = match unsigned(&fields[3], "job-record token") {
        Ok(token) => token,
        Err(error) => return Err(error),
    };
    let attempts: u64 = match unsigned(&fields[4], "job-record attempts") {
        Ok(attempts) => attempts,
        Err(error) => return Err(error),
    };
    let claims: u64 = match unsigned(&fields[5], "job-record claims") {
        Ok(claims) => claims,
        Err(error) => return Err(error),
    };
    Ok(
        JobRecord::new(
            JobPayload::new(payload.clone()),
            status,
            LeaseToken::new(token),
            AttemptCount::new(attempts),
            ClaimCount::new(claims),
        ),
    )
}

/// Reads a stored job from an item.
pub fn parse_stored_job(value: &CborValue) -> (result: Result<StoredJob, CodecError>)
    ensures
        seen_job(result) == job_of(value@),
{
    let CborValue::Array(fields) = value else {
        return Err(CodecError::InvalidShape("stored-job"));
    };
    if fields.len() != 3 {
        return Err(CodecError::InvalidShape("stored-job"));
    }
    match require_version(&fields[0], "stored-job format version") {
        Ok(()) => {},
        Err(error) => return Err(error),
    }
    let ghost type_item = fields[1]@;
    let CborValue::Text(job_type) = &fields[1] else {
        return Err(CodecError::InvalidShape("stored-job job type"));
    };
    let ghost payload_item = fields[2]@;
    let CborValue::Bytes(payload) = &fields[2] else {
        return Err(CodecError::InvalidShape("stored-job payload"));
    };
    Ok(StoredJob::new(job_type.clone(), JobPayload::new(payload.clone())))
}

/// Reads a status from an item.
pub fn parse_job_status(value: &CborValue) -> (result: Result<JobStatus, CodecError>)
    ensures
        seen(result) == status_of(value@),
{
    let CborValue::Array(fields) = value else {
        return Err(CodecError::InvalidShape("job-status"));
    };
    if fields.len() == 0 {
        return Err(CodecError::InvalidShape("job-status"));
    }
    let tag: u64 = match unsigned(&fields[0], "job-status tag") {
        Ok(tag) => tag,
        Err(error) => return Err(error),
    };
    if tag == 0 && fields.len() == 1 {
        Ok(JobStatus::Ready)
    } else if tag == 1 && fields.len() == 2 {
        match unsigned(&fields[1], "job-status run_at") {
            Ok(run_at) => Ok(JobStatus::Scheduled(Instant::from_millis(run_at))),
            Err(error) => Err(error),
        }
    } else if tag == 2 && fields.len() == 2 {
        match unsigned(&fields[1], "job-status expires") {
            Ok(expires) => Ok(JobStatus::Leased(Instant::from_millis(expires))),
            Err(error) => Err(error),
        }
    } else if tag == 3 && fields.len() == 1 {
        Ok(JobStatus::Completed)
    } else if tag == 4 && fields.len() == 2 {
        match parse_dead_reason(&fields[1]) {
            Ok(reason) => Ok(JobStatus::DeadLettered(reason)),
            Err(error) => Err(error),
        }
    } else {
        Err(CodecError::InvalidShape("job-status"))
    }
}

/// Reads a reason from an item.
pub fn parse_dead_reason(value: &CborValue) -> (result: Result<DeadReason, CodecError>)
    ensures
        seen(result) == reason_of(value@),
{
    match unsigned(value, "dead-reason") {
        Ok(0) => Ok(DeadReason::RetriesExhausted),
        Ok(1) => Ok(DeadReason::Rejected),
        Ok(2) => Ok(DeadReason::Undecodable),
        Ok(3) => Ok(DeadReason::Abandoned),
        Ok(_) => Err(CodecError::InvalidShape("dead-reason")),
        Err(error) => Err(error),
    }
}

/// The item of a record.
fn job_record_value(record: &JobRecord) -> (value: CborValue)
    ensures
        value@ == record_item(record@),
        plain(value@, MAX_WRITTEN_DEPTH as nat),
{
    let fields = vec![
        integer(1),
        CborValue::Bytes(slice_to_vec(record.payload().as_bytes())),
        job_status_value(record.status()),
        integer(record.token().get()),
        integer(record.attempts().get()),
        integer(record.claims().get()),
    ];
    let ghost items = seq![fields[0]@, fields[1]@, fields[2]@, fields[3]@, fields[4]@, fields[5]@];
    let value = CborValue::Array(fields);
    proof {
        assert(value@->Array_0 =~= record_item(record@)->Array_0);
        reveal_with_fuel(plain, 4);
    }
    value
}

/// The item of a stored job.
fn stored_job_value(job: &StoredJob) -> (value: CborValue)
    ensures
        value@ == job_item(job@),
        plain(value@, MAX_WRITTEN_DEPTH as nat),
{
    let fields = vec![
        integer(1),
        CborValue::Text(job.job_type().to_owned()),
        CborValue::Bytes(slice_to_vec(job.payload().as_bytes())),
    ];
    let ghost items = seq![fields[0]@, fields[1]@, fields[2]@];
    let value = CborValue::Array(fields);
    proof {
        assert(value@->Array_0 =~= job_item(job@)->Array_0);
        reveal_with_fuel(plain, 4);
    }
    value
}

/// The item of a status.
fn job_status_value(status: JobStatus) -> (value: CborValue)
    ensures
        value@ == status_item(status),
{
    let fields = match status {
        JobStatus::Ready => vec![integer(0)],
        JobStatus::Scheduled(run_at) => vec![integer(1), integer(run_at.as_millis())],
        JobStatus::Leased(expires) => vec![integer(2), integer(expires.as_millis())],
        JobStatus::Completed => vec![integer(3)],
        JobStatus::DeadLettered(reason) => vec![integer(4), integer(dead_reason_tag(reason))],
    };
    let value = CborValue::Array(fields);
    assert(value@->Array_0 =~= status_item(status)->Array_0);
    value
}

/// The number of a reason.
pub fn dead_reason_tag(reason: DeadReason) -> (tag: u64)
    ensures
        tag == reason_tag(reason),
{
    match reason {
        DeadReason::RetriesExhausted => 0,
        DeadReason::Rejected => 1,
        DeadReason::Undecodable => 2,
        DeadReason::Abandoned => 3,
    }
}

/// Requires the format version 1.
pub fn require_version(value: &CborValue, name: &'static str) -> (result: Result<(), CodecError>)
    ensures
        match version_error(value@, name@) {
            None => result is Ok,
            Some(error) => result matches Err(found) && found@ == error,
        },
{
    match unsigned(value, name) {
        Ok(version) => {
            if version == 1 {
                Ok(())
            } else {
                Err(CodecError::InvalidShape(name))
            }
        },
        Err(error) => Err(error),
    }
}

/// Reads an unsigned number from an item.
pub fn unsigned(value: &CborValue, name: &'static str) -> (result: Result<u64, CodecError>)
    ensures
        seen(result) == number_of(value@, name@),
{
    let CborValue::Integer(integer) = value else {
        return Err(CodecError::InvalidShape(name));
    };
    if 0 <= *integer && *integer <= u64::MAX as i128 {
        Ok(*integer as u64)
    } else {
        Err(CodecError::IntegerOutOfRange(name))
    }
}

/// The item of an unsigned number.
fn integer(value: u64) -> (item: CborValue)
    ensures
        item@ == CborView::Integer(value as int),
{
    CborValue::Integer(value as i128)
}

/// Accepts bytes that are the canonical ones.
pub fn require_canonical(input: &[u8], canonical: &[u8]) -> (result: Result<(), CodecError>)
    ensures
        input@ == canonical@ ==> result is Ok,
        input@ != canonical@ ==> result == Err::<(), _>(CodecError::NonCanonical),
{
    if same_bytes(input, canonical) {
        Ok(())
    } else {
        Err(CodecError::NonCanonical)
    }
}

/// Whether two slices hold the same bytes.
pub fn same_bytes(left: &[u8], right: &[u8]) -> (same: bool)
    ensures
        same <==> left@ == right@,
{
    if left.len() != right.len() {
        return false;
    }
    let mut index: usize = 0;
    while index < left.len()
        invariant
            left@.len() == right@.len(),
            index <= left@.len(),
            forall|i: int| 0 <= i < index ==> left@[i] == right@[i],
        decreases left.len() - index,
    {
        if left[index] != right[index] {
            return false;
        }
        index += 1;
    }
    assert(left@ =~= right@);
    true
}

/// A record is read from its own item.
pub proof fn law_record_items_are_read_back(record: JobRecordView)
    ensures
        record_of(record_item(record)) == Ok::<_, CodecErrorView>(record),
{
}

/// An item from which a record is read is the record's own: no two items stand for one record.
pub proof fn law_record_items_are_unique(item: CborView)
    ensures
        record_of(item) matches Ok(record) ==> item == record_item(record),
{
    if let Ok(record) = record_of(item) {
        let fields = item->Array_0;
        assert(fields[2]->Array_0 =~= status_item(record.status)->Array_0);
        assert(fields =~= record_item(record)->Array_0);
    }
}

/// A stored job is read from its own item.
pub proof fn law_job_items_are_read_back(job: StoredJobView)
    ensures
        job_of(job_item(job)) == Ok::<_, CodecErrorView>(job),
{
}

/// An item from which a stored job is read is the job's own.
pub proof fn law_job_items_are_unique(item: CborView)
    ensures
        job_of(item) matches Ok(job) ==> item == job_item(job),
{
    if let Ok(job) = job_of(item) {
        assert(item->Array_0 =~= job_item(job)->Array_0);
    }
}

/// Bytes that are accepted are the only ones that stand for their record or job.
pub proof fn law_accepted_bytes_are_canonical(bytes: Seq<u8>, others: Seq<u8>)
    ensures
        decoded_record(bytes) is Ok && decoded_record(bytes) == decoded_record(others) ==> bytes
            == others,
        decoded_job(bytes) is Ok && decoded_job(bytes) == decoded_job(others) ==> bytes == others,
{
}

/// How a record is laid out: six fields, the version first, then the payload, the status,
/// the token, the failures and the claims, each as it is. A status is its number with its
/// instant or its reason, if it has one.
pub proof fn law_records_are_laid_out_in_order(record: JobRecordView)
    ensures
        match record_item(record) {
            CborView::Array(fields) => {
                &&& fields.len() == 6
                &&& fields[0] == CborView::Integer(1)
                &&& fields[1] == CborView::Bytes(record.payload)
                &&& fields[3] == CborView::Integer(record.token.0 as int)
                &&& fields[4] == CborView::Integer(record.attempts.0 as int)
                &&& fields[5] == CborView::Integer(record.claims.0 as int)
                &&& match (record.status, fields[2]) {
                    (JobStatus::Ready, CborView::Array(parts)) => parts.len() == 1 && parts[0]
                        == CborView::Integer(0),
                    (JobStatus::Scheduled(instant), CborView::Array(parts)) => parts.len() == 2
                        && parts[0] == CborView::Integer(1) && parts[1] == CborView::Integer(
                        instant.0 as int,
                    ),
                    (JobStatus::Leased(instant), CborView::Array(parts)) => parts.len() == 2
                        && parts[0] == CborView::Integer(2) && parts[1] == CborView::Integer(
                        instant.0 as int,
                    ),
                    (JobStatus::Completed, CborView::Array(parts)) => parts.len() == 1 && parts[0]
                        == CborView::Integer(3),
                    (JobStatus::DeadLettered(reason), CborView::Array(parts)) => parts.len() == 2
                        && parts[0] == CborView::Integer(4) && match reason {
                        DeadReason::RetriesExhausted => parts[1] == CborView::Integer(0),
                        DeadReason::Rejected => parts[1] == CborView::Integer(1),
                        DeadReason::Undecodable => parts[1] == CborView::Integer(2),
                        DeadReason::Abandoned => parts[1] == CborView::Integer(3),
                    },
                    _ => false,
                }
            },
            _ => false,
        },
{
}

/// How a stored job is laid out: the version, the name of its type, and its payload.
pub proof fn law_jobs_are_laid_out_in_order(job: StoredJobView)
    ensures
        match job_item(job) {
            CborView::Array(fields) => fields.len() == 3 && fields[0] == CborView::Integer(1)
                && fields[1] == CborView::Text(job.job_type) && fields[2] == CborView::Bytes(
                job.payload,
            ),
            _ => false,
        },
{
}

/// What was written is read back, and what is read is what would be written for it: bytes
/// that stand for a record or a job in any other way are refused.
pub proof fn law_only_canonical_bytes_are_read(
    record: JobRecord,
    written: Result<Vec<u8>, CodecError>,
    bytes: &[u8],
    read: Result<JobRecord, CodecError>,
    job: StoredJob,
    job_written: Result<Vec<u8>, CodecError>,
    job_read: Result<StoredJob, CodecError>,
)
    requires
        call_ensures(encode_job_record, (&record,), written),
        call_ensures(decode_job_record, (bytes,), read),
        call_ensures(encode_stored_job, (&job,), job_written),
        call_ensures(decode_stored_job, (bytes,), job_read),
    ensures
        written is Ok,
        bytes@ == written->Ok_0@ ==> (read matches Ok(found) && found@ == record@),
        read matches Ok(found) ==> (found@ == record@ ==> bytes@ == written->Ok_0@),
        job_written is Ok,
        bytes@ == job_written->Ok_0@ ==> (job_read matches Ok(found) && found@ == job@),
        job_read matches Ok(found) ==> (found@ == job@ ==> bytes@ == job_written->Ok_0@),
{
}

/// A field is read as the number that it is. One that is no number is of the wrong shape,
/// and one that does not fit is out of range; either is told by the name of the field. A
/// version must be the one that is written.
pub proof fn law_fields_are_read_as_numbers(item: CborView, name: Seq<char>)
    ensures
        match number_of(item, name) {
            Ok(number) => item == CborView::Integer(number as int),
            Err(CodecErrorView::InvalidShape(field)) => field == name && !(item is Integer),
            Err(CodecErrorView::IntegerOutOfRange(field)) => field == name && (
            item matches CborView::Integer(number) && !(0 <= number <= u64::MAX)),
            Err(_) => false,
        },
        version_error(item, name) is None <==> item == CborView::Integer(1),
{
}

/// What is read names what is wrong with it: bytes that hold no item, an item that is no
/// record, or one that is not written so.
pub proof fn law_wrong_bytes_are_told_why(bytes: Seq<u8>)
    ensures
        match decoded_record(bytes) {
            Ok(record) => cbor_decoded(bytes) == Ok::<_, Seq<char>>(record_item(record)),
            Err(CodecErrorView::Decode(message)) => cbor_decoded(bytes) == Err::<CborView, _>(
                message,
            ),
            Err(CodecErrorView::NonCanonical) => cbor_decoded(bytes) is Ok,
            Err(CodecErrorView::Encode(_)) => false,
            Err(_) => cbor_decoded(bytes) matches Ok(item) && forall|record: JobRecordView|
                item != #[trigger] record_item(record),
        },
        match decoded_job(bytes) {
            Ok(job) => cbor_decoded(bytes) == Ok::<_, Seq<char>>(job_item(job)),
            Err(CodecErrorView::Decode(message)) => cbor_decoded(bytes) == Err::<CborView, _>(
                message,
            ),
            Err(CodecErrorView::NonCanonical) => cbor_decoded(bytes) is Ok,
            Err(CodecErrorView::Encode(_)) => false,
            Err(_) => cbor_decoded(bytes) matches Ok(item) && forall|job: StoredJobView|
                item != #[trigger] job_item(job),
        },
{
    if let Ok(item) = cbor_decoded(bytes) {
        law_record_items_are_unique(item);
        law_job_items_are_unique(item);
        assert forall|record: JobRecordView| item == #[trigger] record_item(record) implies record_of(
            item,
        ) is Ok by {
            law_record_items_are_read_back(record);
        }
        assert forall|job: StoredJobView| item == #[trigger] job_item(job) implies job_of(
            item,
        ) is Ok by {
            law_job_items_are_read_back(job);
        }
    }
}

} // verus!
