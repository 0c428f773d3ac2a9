//! What a lease is worth to the worker that holds it.
//!
//! A worker renews its lease by the sequence of its claim. The renewal finds the row of the
//! job only as long as that claim is the last thing that happened to the job.

use vstd::prelude::*;

use crate::job::{
    claim_fits, claimable, planned, state_evolved, ClaimId, JobEvent, JobState, WonClaim, WorkerId,
};
use crate::job_store::{ClaimDecision, ClaimOutcome, ClaimRead, LeaseRenewal};
use crate::lifecycle::Lifecycle;
use crate::storage::{claim_follows, claim_writes, renewal_of, version_appended, QueueRow};

verus! {

/// Whether the claim with that sequence may renew the lease of a row: the job is claimed,
/// and nothing happened to it since.
pub open spec fn renewable(row: QueueRow, claim_seq: i64) -> bool {
    row.version == claim_seq && row.state is Claimed
}

/// The row once the claim with that sequence asked for a lease: nothing but the lease of
/// its own row is changed.
pub open spec fn renewed(row: QueueRow, claim_seq: i64, lease_until_ms: i64) -> QueueRow {
    if renewable(row, claim_seq) {
        QueueRow { lease_until_ms: Some(lease_until_ms), ..row }
    } else {
        row
    }
}

/// The number of rows that a renewal finds.
pub open spec fn renewal_finds(
    rows: Map<Seq<char>, QueueRow>,
    job_id: Seq<char>,
    claim_seq: i64,
) -> u64 {
    if rows.contains_key(job_id) && renewable(rows[job_id], claim_seq) {
        1
    } else {
        0
    }
}

/// What happens to the row of a job.
pub enum RowStep {
    /// An event of the job is recorded, and leaves a lease in the row or not.
    Event(JobEvent, Option<i64>),
    /// A claim asks for a lease.
    Renewal { claim_seq: i64, lease_until_ms: i64 },
}

/// The row after a step: an event moves it to the version of that event, and to the state
/// that the event makes. None where the event cannot follow.
pub open spec fn row_after(row: QueueRow, step: RowStep) -> Option<QueueRow> {
    match step {
        RowStep::Event(event, lease_until_ms) => match state_evolved(row.state, event) {
            Some(state) if row.version < i64::MAX => Some(
                QueueRow { version: (row.version + 1) as i64, state, lease_until_ms },
            ),
            _ => None,
        },
        RowStep::Renewal { claim_seq, lease_until_ms } => Some(
            renewed(row, claim_seq, lease_until_ms),
        ),
    }
}

/// The row after some steps, if they can follow on each other.
pub open spec fn row_after_all(row: QueueRow, steps: Seq<RowStep>) -> Option<QueueRow>
    decreases steps.len(),
{
    if steps.len() == 0 {
        Some(row)
    } else {
        match row_after(row, steps[0]) {
            Some(next) => row_after_all(next, steps.skip(1)),
            None => None,
        }
    }
}

/// Whether an event is among the steps.
pub open spec fn has_event(steps: Seq<RowStep>) -> bool {
    exists|i: int| 0 <= i < steps.len() && #[trigger] steps[i] is Event
}

/// Events move a row on, and renewals keep all but its lease.
proof fn lemma_only_events_move_rows(row: QueueRow, steps: Seq<RowStep>)
    requires
        row_after_all(row, steps) is Some,
    ensures
        ({
            let later = row_after_all(row, steps)->0;
            if has_event(steps) {
                later.version > row.version
            } else {
                later.version == row.version && later.state == row.state
            }
        }),
    decreases steps.len(),
{
    if steps.len() > 0 {
        let rest = steps.skip(1);
        lemma_only_events_move_rows(row_after(row, steps[0])->0, rest);
        if has_event(rest) {
            let i = choose|i: int| 0 <= i < rest.len() && #[trigger] rest[i] is Event;
            assert(steps[i + 1] is Event);
        } else if has_event(steps) {
            let i = choose|i: int| 0 <= i < steps.len() && #[trigger] steps[i] is Event;
            if i > 0 {
                assert(rest[i - 1] is Event);
            }
        }
    }
}

/// A claim that was won may renew its lease until another event is recorded for its job,
/// however often it was renewed before. From then on its renewal finds no row, also where
/// another worker claimed the job, and the lease counts as lost.
pub proof fn law_leases_are_held_until_the_next_event(
    rows: Map<Seq<char>, QueueRow>,
    job_id: Seq<char>,
    steps: Seq<RowStep>,
    later: Map<Seq<char>, QueueRow>,
)
    requires
        rows.contains_key(job_id),
        rows[job_id].state is Claimed,
        later.contains_key(job_id),
        row_after_all(rows[job_id], steps) == Some(later[job_id]),
    ensures
        renewal_of(renewal_finds(later, job_id, rows[job_id].version)) == if has_event(steps) {
            LeaseRenewal::Lost
        } else {
            LeaseRenewal::Held
        },
{
    lemma_only_events_move_rows(rows[job_id], steps);
}

/// A renewal keeps the version and the state of a row, and so what the job is and which
/// claim it is held by. A job that nobody holds has no lease to renew, under any claim.
pub proof fn law_renewals_change_the_lease_alone(row: QueueRow, claim_seq: i64, lease_until_ms: i64)
    ensures
        renewed(row, claim_seq, lease_until_ms).version == row.version,
        renewed(row, claim_seq, lease_until_ms).state == row.state,
        renewed(row, claim_seq, lease_until_ms).lease_until_ms == if renewable(row, claim_seq) {
            Some(lease_until_ms)
        } else {
            row.lease_until_ms
        },
        row.state is Pending || row.state is Done || row.state is Dead ==> !renewable(
            row,
            claim_seq,
        ),
{
}

/// What a claim writes is an event of its job, which moves the job's row; a claim that is
/// won leaves a row whose lease it can renew, and that no earlier claim can renew.
pub proof fn law_won_claims_hold_their_lease(
    read: Option<ClaimRead>,
    decoded: Option<Lifecycle<JobState>>,
    worker: WorkerId,
    now_ms: i64,
    lease_ms: i64,
    max_claims: u32,
    claim_id: ClaimId,
    fallback: i64,
    decision: ClaimDecision<WonClaim>,
    earlier: i64,
)
    requires
        claim_fits(read, decoded, now_ms, lease_ms),
        planned(
            read,
            decoded,
            worker,
            now_ms,
            lease_ms,
            max_claims,
            claim_id,
            fallback,
            decision,
        ),
        read is Some,
        earlier <= read->0.version,
    ensures
        claim_writes(decision) matches Ok(write) ==> {
            let before = QueueRow {
                version: read->0.version,
                state: claimable(read, decoded, now_ms)->0,
                lease_until_ms: read->0.lease_until_ms,
            };
            let follows = claim_follows(write, version_appended(write.sequence, false)->Ok_0);
            &&& follows.0 == row_after(before, RowStep::Event(write.event, write.lease_until_ms))
            &&& follows.0 matches Some(row)
            &&& !renewable(row, earlier)
            &&& follows.1 matches ClaimOutcome::Won(won) ==> renewable(row, won.claim_seq)
        },
{
}

} // verus!
