//! Values of the job engine: versions, instants, leases and job records.

use vstd::prelude::*;

verus! {

/// The stream version that a writer expects to find.
#[derive(Clone, Copy, Debug, Eq, PartialEq, Structural)]
pub enum ExpectedVersion {
    NoStream,
    At(StreamVersion),
}

/// The sequence number of the last event of a stream.
#[derive(Clone, Copy, Debug, Eq, PartialEq, Structural)]
pub struct StreamVersion(pub u64);

impl StreamVersion {
    pub fn new(value: u64) -> (version: Self)
        ensures
            version.0 == value,
    {
        Self(value)
    }

    pub fn get(self) -> (value: u64)
        ensures
            value == self.0,
    {
        self.0
    }
}

/// A point in time, in milliseconds since the Unix epoch.
#[derive(Clone, Copy, Debug, Eq, PartialEq, Ord, PartialOrd, Structural)]
pub struct Instant(pub u64);

impl Instant {
    pub fn from_millis(value: u64) -> (instant: Self)
        ensures
            instant.0 == value,
    {
        Self(value)
    }

    pub fn as_millis(self) -> (value: u64)
        ensures
            value == self.0,
    {
        self.0
    }
}

/// The interval for which a lease is asked: it ends after it starts.
#[derive(Clone, Copy, Debug, Eq, PartialEq, Structural)]
pub struct LeaseWindow {
    start: Instant,
    end: Instant,
}

/// What a lease window is: its first instant and its last.
pub struct LeaseWindowView {
    pub start: Instant,
    pub end: Instant,
}

impl View for LeaseWindow {
    type V = LeaseWindowView;

    closed spec fn view(&self) -> LeaseWindowView {
        LeaseWindowView { start: self.start, end: self.end }
    }
}

impl LeaseWindow {
    #[verifier::type_invariant]
    spec fn increasing(self) -> bool {
        self.start.0 < self.end.0
    }

    /// The window from `start` to `end`, where it is not empty.
    pub fn new(start: Instant, end: Instant) -> (result: Result<Self, InvalidLeaseWindow>)
        ensures
            start.0 < end.0 ==> (result matches Ok(window) && window@.start == start && window@.end
                == end),
            start.0 >= end.0 ==> result == Err::<Self, _>(InvalidLeaseWindow),
    {
        if start.0 < end.0 {
            Ok(Self { start, end })
        } else {
            Err(InvalidLeaseWindow)
        }
    }

    pub fn start(self) -> (start: Instant)
        ensures
            start == self@.start,
            self@.start.0 < self@.end.0,
    {
        proof {
            use_type_invariant(&self);
        }
        self.start
    }

    pub fn end(self) -> (end: Instant)
        ensures
            end == self@.end,
            self@.start.0 < self@.end.0,
    {
        proof {
            use_type_invariant(&self);
        }
        self.end
    }
}

/// A lease window that does not end after it starts.
#[derive(Clone, Copy, Debug, Eq, PartialEq, Structural)]
pub struct InvalidLeaseWindow;

/// How often a job may be claimed before it is abandoned.
#[derive(Clone, Copy, Debug, Eq, PartialEq, Structural)]
pub struct ClaimBudget(pub u64);

impl ClaimBudget {
    pub fn new(value: u64) -> (budget: Self)
        ensures
            budget.0 == value,
    {
        Self(value)
    }

    pub fn get(self) -> (value: u64)
        ensures
            value == self.0,
    {
        self.0
    }
}

/// What a job carries, as opaque bytes.
#[derive(Clone, Debug, Eq, PartialEq)]
pub struct JobPayload(Vec<u8>);

impl View for JobPayload {
    type V = Seq<u8>;

    closed spec fn view(&self) -> Seq<u8> {
        self.0@
    }
}

/// `From<T> for T` of the standard library gives its argument back.
pub assume_specification<Same>[ <Same as From<Same>>::from ](value: Same) -> (result: Same)
    ensures
        result == value,
;

impl JobPayload {
    /// The payload of the bytes that `value` converts into.
    pub fn new<Bytes: Into<Vec<u8>>>(value: Bytes) -> (payload: Self)
        ensures
            exists|bytes: Vec<u8>|
                #[trigger] call_ensures(Bytes::into, (value,), bytes) && payload@ == bytes@,
    {
        let bytes: Vec<u8> = value.into();
        assert(call_ensures(Bytes::into, (value,), bytes));
        Self(bytes)
    }

    pub fn as_bytes(&self) -> (bytes: &[u8])
        ensures
            bytes@ == self@,
    {
        self.0.as_slice()
    }

    /// Another payload of the same bytes.
    pub fn duplicate(&self) -> (copy: Self)
        ensures
            copy@ == self@,
    {
        Self(self.0.clone())
    }

    /// Whether two payloads hold the same bytes.
    pub fn same(&self, other: &Self) -> (same: bool)
        ensures
            same <==> self@ == other@,
    {
        let same = self.0 == other.0;
        proof {
            assert(same <==> self.0@ =~= other.0@);
        }
        same
    }
}

/// The fencing token of a lease.
#[derive(Clone, Copy, Debug, Eq, PartialEq, Structural)]
pub struct LeaseToken(pub u64);

impl LeaseToken {
    /// The token of a job that was never claimed.
    pub fn initial() -> (token: Self)
        ensures
            token.0 == 0,
    {
        Self(0)
    }

    pub fn new(value: u64) -> (token: Self)
        ensures
            token.0 == value,
    {
        Self(value)
    }

    pub fn get(self) -> (value: u64)
        ensures
            value == self.0,
    {
        self.0
    }
}

/// How often a job failed in a way that counts.
#[derive(Clone, Copy, Debug, Eq, PartialEq, Structural)]
pub struct AttemptCount(pub u64);

impl AttemptCount {
    /// The count of a job that never failed.
    pub fn zero() -> (count: Self)
        ensures
            count.0 == 0,
    {
        Self(0)
    }

    pub fn new(value: u64) -> (count: Self)
        ensures
            count.0 == value,
    {
        Self(value)
    }

    pub fn get(self) -> (value: u64)
        ensures
            value == self.0,
    {
        self.0
    }
}

/// How often a job was claimed since its count was last reset.
#[derive(Clone, Copy, Debug, Eq, PartialEq, Structural)]
pub struct ClaimCount(pub u64);

impl ClaimCount {
    /// The count of a job that was not claimed yet.
    pub fn zero() -> (count: Self)
        ensures
            count.0 == 0,
    {
        Self(0)
    }

    pub fn new(value: u64) -> (count: Self)
        ensures
            count.0 == value,
    {
        Self(value)
    }

    pub fn get(self) -> (value: u64)
        ensures
            value == self.0,
    {
        self.0
    }
}

/// Why a job was given up.
#[derive(Clone, Copy, Debug, Eq, PartialEq, Structural)]
pub enum DeadReason {
    RetriesExhausted,
    Rejected,
    Undecodable,
    Abandoned,
}

/// Where a job stands.
#[derive(Clone, Copy, Debug, Eq, PartialEq, Structural)]
pub enum JobStatus {
    /// May be claimed at once.
    Ready,
    /// May be claimed from the instant on.
    Scheduled(Instant),
    /// Held by a worker until the instant.
    Leased(Instant),
    Completed,
    DeadLettered(DeadReason),
}

impl JobStatus {
    /// Whether no operation moves the job any further.
    pub open spec fn is_terminal(self) -> bool {
        self is Completed || self is DeadLettered
    }
}

/// A job as the store holds it.
#[derive(Clone, Debug, Eq, PartialEq)]
pub struct JobRecord {
    payload: JobPayload,
    status: JobStatus,
    token: LeaseToken,
    attempts: AttemptCount,
    claims: ClaimCount,
}

/// What a job record says, with its payload as a sequence of bytes.
pub struct JobRecordView {
    pub payload: Seq<u8>,
    pub status: JobStatus,
    pub token: LeaseToken,
    pub attempts: AttemptCount,
    pub claims: ClaimCount,
}

impl View for JobRecord {
    type V = JobRecordView;

    closed spec fn view(&self) -> JobRecordView {
        JobRecordView {
            payload: self.payload@,
            status: self.status,
            token: self.token,
            attempts: self.attempts,
            claims: self.claims,
        }
    }
}

impl JobRecordView {
    /// The record of a job that was just enqueued.
    pub open spec fn enqueued(payload: Seq<u8>, run_at: Option<Instant>) -> JobRecordView {
        JobRecordView {
            payload,
            status: match run_at {
                Some(instant) => JobStatus::Scheduled(instant),
                None => JobStatus::Ready,
            },
            token: LeaseToken(0),
            attempts: AttemptCount(0),
            claims: ClaimCount(0),
        }
    }
}

impl JobRecord {
    pub fn new(
        payload: JobPayload,
        status: JobStatus,
        token: LeaseToken,
        attempts: AttemptCount,
        claims: ClaimCount,
    ) -> (record: Self)
        ensures
            record@ == (JobRecordView { payload: payload@, status, token, attempts, claims }),
    {
        Self { payload, status, token, attempts, claims }
    }

    /// The record of a job that was just enqueued, to run at once or at `run_at`.
    pub fn enqueued(payload: JobPayload, run_at: Option<Instant>) -> (record: Self)
        ensures
            record@ == JobRecordView::enqueued(payload@, run_at),
    {
        let status = match run_at {
            Some(instant) => JobStatus::Scheduled(instant),
            None => JobStatus::Ready,
        };
        Self {
            payload,
            status,
            token: LeaseToken::initial(),
            attempts: AttemptCount::zero(),
            claims: ClaimCount::zero(),
        }
    }

    pub fn payload(&self) -> (payload: &JobPayload)
        ensures
            payload@ == self@.payload,
    {
        &self.payload
    }

    pub fn status(&self) -> (status: JobStatus)
        ensures
            status == self@.status,
    {
        self.status
    }

    pub fn token(&self) -> (token: LeaseToken)
        ensures
            token == self@.token,
    {
        self.token
    }

    pub fn attempts(&self) -> (attempts: AttemptCount)
        ensures
            attempts == self@.attempts,
    {
        self.attempts
    }

    pub fn claims(&self) -> (claims: ClaimCount)
        ensures
            claims == self@.claims,
    {
        self.claims
    }
}

/// A job as an outbox holds it: the name of its type and its payload.
#[derive(Clone, Debug, Eq, PartialEq)]
pub struct StoredJob {
    job_type: String,
    payload: JobPayload,
}

/// What a stored job says, as sequences of characters and bytes.
pub struct StoredJobView {
    pub job_type: Seq<char>,
    pub payload: Seq<u8>,
}

impl View for StoredJob {
    type V = StoredJobView;

    closed spec fn view(&self) -> StoredJobView {
        StoredJobView { job_type: self.job_type@, payload: self.payload@ }
    }
}

impl StoredJob {
    pub fn new<Name: Into<String>>(job_type: Name, payload: JobPayload) -> (job: Self)
        ensures
            job@.payload == payload@,
            exists|name: String|
                #[trigger] call_ensures(Name::into, (job_type,), name) && job@.job_type == name@,
    {
        let name: String = job_type.into();
        assert(call_ensures(Name::into, (job_type,), name));
        Self { job_type: name, payload }
    }

    pub fn job_type(&self) -> (job_type: &str)
        ensures
            job_type@ == self@.job_type,
    {
        self.job_type.as_str()
    }

    pub fn payload(&self) -> (payload: &JobPayload)
        ensures
            payload@ == self@.payload,
    {
        &self.payload
    }
}

/// What a decision does to a stored value.
#[derive(Clone, Debug, Eq, PartialEq)]
pub enum Mutation<T> {
    /// The value to store.
    Changed(T),
    /// The value that is stored already.
    Unchanged(T),
}

impl View for Mutation<JobRecord> {
    type V = Mutation<JobRecordView>;

    open spec fn view(&self) -> Mutation<JobRecordView> {
        match self {
            Mutation::Changed(record) => Mutation::Changed(record@),
            Mutation::Unchanged(record) => Mutation::Unchanged(record@),
        }
    }
}

impl<T> Mutation<T> {
    /// The value after the decision.
    pub open spec fn value(self) -> T {
        match self {
            Mutation::Changed(value) => value,
            Mutation::Unchanged(value) => value,
        }
    }
}

/// What was decided, and what the decision does to the stored value.
#[derive(Clone, Debug, Eq, PartialEq)]
pub struct Decision<V, T> {
    pub verdict: V,
    pub mutation: Mutation<T>,
}

impl<V, T> Decision<V, T> {
    pub fn new(verdict: V, mutation: Mutation<T>) -> (decision: Self)
        ensures
            decision.verdict == verdict,
            decision.mutation == mutation,
    {
        Self { verdict, mutation }
    }

    pub fn verdict(&self) -> (verdict: &V)
        ensures
            *verdict == self.verdict,
    {
        &self.verdict
    }

    pub fn mutation(&self) -> (mutation: &Mutation<T>)
        ensures
            *mutation == self.mutation,
    {
        &self.mutation
    }

    pub fn into_parts(self) -> (parts: (V, Mutation<T>))
        ensures
            parts.0 == self.verdict,
            parts.1 == self.mutation,
    {
        (self.verdict, self.mutation)
    }
}

} // verus!
