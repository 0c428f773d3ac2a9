//! What a job store hands to the claim decision, and takes from it.

use vstd::prelude::*;

use crate::job::{JobEvent, JobState};

verus! {

/// The queue row of a job, as the claim transaction reads it.
#[derive(Debug)]
pub struct ClaimRead {
    /// The sequence of the last event that the row holds.
    pub version: i64,
    /// The stored lifecycle of the job.
    pub payload: String,
    /// The lease, as the workers renew it.
    pub lease_until_ms: Option<i64>,
}

/// What a claim transaction is to do.
#[derive(Debug)]
pub enum ClaimDecision<Won> {
    /// Append `event` at `sequence`, then store the state and the lease.
    Claim {
        event: JobEvent,
        sequence: usize,
        state: JobState,
        lease_until_ms: i64,
        won: Won,
    },
    /// Append `event` at `sequence`, then store the state: the job is given up.
    Abandon { event: JobEvent, sequence: usize, state: JobState },
    /// Change nothing.
    Skip,
}

/// How a claim ended.
#[derive(Debug)]
pub enum ClaimOutcome<Won> {
    /// The job is claimed.
    Won(Won),
    /// The job was given up.
    Abandoned,
    /// Another worker was faster.
    Contended,
    /// The job is not to be claimed.
    Skip,
}

/// How a renewal of a lease ended.
#[derive(Clone, Copy, Debug, Eq, PartialEq, Structural)]
pub enum LeaseRenewal {
    Held,
    Lost,
}

} // verus!
