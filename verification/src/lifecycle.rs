//! The job row and the conditional UPDATEs that move it through its life:
//!
//! ```text
//! pending ──> queued ──> executing ──> complete
//!    ▲                       │
//!    │                       ├──> pending      (retry with backoff)
//!    │                       └──> failed       (dead letter)
//!    └── retries re-enter the normal pipeline
//! ```
//!
//! Each spec function below states what one of the services' statements
//! does to a row, and whether the row counts as updated. The laws at the
//! end are what these guards buy: only a claim grants ownership, a claim is
//! exclusive, every worker write after the claim is fenced by the node id
//! and the attempt id, finished rows never change, and the sweepers are
//! idempotent.

use vstd::prelude::*;
use crate::worker::{FencedWrite, Verdict};
use crate::time::instant;

verus! {

/// Where a job is in its life.
#[derive(Clone, Copy, Debug, PartialEq, Eq, Structural)]
pub enum JobStatus {
    Pending,
    Queued,
    Executing,
    Complete,
    Failed,
}

impl JobStatus {
    /// The status as the `status` column stores it.
    pub fn as_str(&self) -> (s: &'static str)
        ensures
            s@ == (match self {
                JobStatus::Pending => "pending"@,
                JobStatus::Queued => "queued"@,
                JobStatus::Executing => "executing"@,
                JobStatus::Complete => "complete"@,
                JobStatus::Failed => "failed"@,
            }),
    {
        match self {
            JobStatus::Pending => "pending",
            JobStatus::Queued => "queued",
            JobStatus::Executing => "executing",
            JobStatus::Complete => "complete",
            JobStatus::Failed => "failed",
        }
    }
}

/// A worker's claim on a job: the worker's node id and the attempt id that
/// it drew for this trip.
pub struct Claim {
    pub node: Seq<char>,
    pub attempt: Seq<char>,
}

/// The columns of a job row that the statements read or write. Instants
/// are nanoseconds since the Unix epoch.
pub struct JobRow {
    pub status: JobStatus,
    pub claim: Option<Claim>,
    pub lease_expires_at: Option<int>,
    pub attempts: int,
    pub max_attempts: int,
    pub scheduled_for: int,
    pub indexed: bool,
    pub last_error: Option<Seq<char>>,
    pub updated_at: int,
}

/// True when the row is executing under claim `c`: the fence of every
/// worker write after the claim.
pub open spec fn holds(row: JobRow, c: Claim) -> bool {
    row.status == JobStatus::Executing && row.claim == Some(c)
}

/// True when the row is finished for good.
pub open spec fn is_terminal(row: JobRow) -> bool {
    row.status == JobStatus::Complete || row.status == JobStatus::Failed
}

/// The scheduler moves a due job from pending to queued.
pub open spec fn schedule_step(row: JobRow, now: int) -> (JobRow, bool) {
    if row.status == JobStatus::Pending {
        (JobRow { status: JobStatus::Queued, updated_at: now, ..row }, true)
    } else {
        (row, false)
    }
}

/// A worker claims a queued job: it becomes executing under claim `c`, with
/// a lease until `lease`, and the attempt is charged at once.
pub open spec fn claim_step(row: JobRow, c: Claim, now: int, lease: int) -> (JobRow, bool) {
    if row.status == JobStatus::Queued {
        (JobRow {
            status: JobStatus::Executing,
            claim: Some(c),
            lease_expires_at: Some(lease),
            attempts: row.attempts + 1,
            updated_at: now,
            ..row
        }, true)
    } else {
        (row, false)
    }
}

/// The renewal task extends the lease, fenced by the claim.
pub open spec fn renew_step(row: JobRow, c: Claim, now: int, lease: int) -> (JobRow, bool) {
    if holds(row, c) {
        (JobRow { lease_expires_at: Some(lease), updated_at: now, ..row }, true)
    } else {
        (row, false)
    }
}

/// The worker records success, fenced by the claim.
pub open spec fn complete_step(row: JobRow, c: Claim, now: int) -> (JobRow, bool) {
    if holds(row, c) {
        (JobRow { status: JobStatus::Complete, lease_expires_at: None, updated_at: now, ..row }, true)
    } else {
        (row, false)
    }
}

/// The worker dead-letters the job with its error, fenced by the claim.
pub open spec fn dead_letter_step(row: JobRow, c: Claim, now: int, error: Seq<char>) -> (JobRow, bool) {
    if holds(row, c) {
        (JobRow {
            status: JobStatus::Failed,
            last_error: Some(error),
            claim: None,
            lease_expires_at: None,
            updated_at: now,
            ..row
        }, true)
    } else {
        (row, false)
    }
}

/// The worker turns the job back into a scheduled one, fenced by the claim:
/// pending again at `next_run` (after the backoff), with its Redis index
/// marker cleared so that the normal pipeline picks it up.
pub open spec fn retry_step(row: JobRow, c: Claim, now: int, error: Seq<char>, next_run: int) -> (JobRow, bool) {
    if holds(row, c) {
        (JobRow {
            status: JobStatus::Pending,
            last_error: Some(error),
            scheduled_for: next_run,
            claim: None,
            lease_expires_at: None,
            indexed: false,
            updated_at: now,
            ..row
        }, true)
    } else {
        (row, false)
    }
}

/// True when the row's lease ended before `now`.
pub open spec fn lease_expired(row: JobRow, now: int) -> bool {
    row.lease_expires_at matches Some(l) && l < now
}

/// The stuck-job sweeper hands an executing job whose lease has expired
/// back to the queue.
pub open spec fn requeue_expired_step(row: JobRow, now: int) -> (JobRow, bool) {
    if row.status == JobStatus::Executing && lease_expired(row, now) {
        (JobRow {
            status: JobStatus::Queued,
            claim: None,
            lease_expires_at: None,
            updated_at: now,
            ..row
        }, true)
    } else {
        (row, false)
    }
}

/// The marker flusher (or the forgotten-job sweeper) records that the job
/// is in the sorted set.
pub open spec fn mark_indexed_step(row: JobRow) -> (JobRow, bool) {
    (JobRow { indexed: true, ..row }, true)
}

/// The fenced write that a worker sends for its verdict (a retry runs
/// again at `next_run`); a worker that lost its lease writes nothing.
pub open spec fn verdict_step(v: Verdict, row: JobRow, c: Claim, now: int, next_run: int) -> (JobRow, bool) {
    match v {
        Verdict::Abandon => (row, false),
        Verdict::Complete => complete_step(row, c, now),
        Verdict::DeadLetter(m) => dead_letter_step(row, c, now, m@),
        Verdict::Retry(m) => retry_step(row, c, now, m@, next_run),
    }
}

/// The effect of a worker's final fenced write on a row: only while the
/// worker holds the job, the status is set, the error recorded if the write
/// carries one, the claim released if it says so, the lease cleared, and
/// for a retry the job rescheduled at the write's instant and its index
/// marker cleared.
pub open spec fn write_step(w: FencedWrite, row: JobRow, c: Claim, now: int) -> (JobRow, bool) {
    if holds(row, c) {
        (JobRow {
            status: w.status,
            last_error: match w.last_error {
                Some(m) => Some(m@),
                None => row.last_error,
            },
            claim: if w.release_claim { None } else { row.claim },
            lease_expires_at: None,
            scheduled_for: match w.retry_at {
                Some(t) => instant(t),
                None => row.scheduled_for,
            },
            indexed: if w.retry_at is Some { false } else { row.indexed },
            updated_at: now,
            ..row
        }, true)
    } else {
        (row, false)
    }
}

/// True when the forgotten-job sweeper must put the job (back) into the
/// sorted set.
pub open spec fn needs_index(row: JobRow) -> bool {
    row.status == JobStatus::Pending && !row.indexed
}

/// Ownership is granted by a claim and by nothing else: after any other
/// statement, a worker holds the job only if it held it before.
pub proof fn only_claims_grant_ownership(row: JobRow, c: Claim, other: Claim, now: int, lease: int, error: Seq<char>, next_run: int)
    ensures
        holds(schedule_step(row, now).0, c) ==> holds(row, c),
        holds(renew_step(row, other, now, lease).0, c) ==> holds(row, c),
        holds(complete_step(row, other, now).0, c) ==> holds(row, c),
        holds(dead_letter_step(row, other, now, error).0, c) ==> holds(row, c),
        holds(retry_step(row, other, now, error, next_run).0, c) ==> holds(row, c),
        holds(requeue_expired_step(row, now).0, c) ==> holds(row, c),
        holds(mark_indexed_step(row).0, c) ==> holds(row, c),
{
}

/// A claim succeeds exactly on a queued job, charges one attempt, and
/// leaves the job to the claimer alone: no second claim succeeds on it,
/// and no other claim holds it.
pub proof fn claim_is_exclusive(row: JobRow, c1: Claim, c2: Claim, now: int, lease: int, now2: int, lease2: int)
    ensures
        claim_step(row, c1, now, lease).1 <==> row.status == JobStatus::Queued,
        claim_step(row, c1, now, lease).1 ==> {
            let after = claim_step(row, c1, now, lease).0;
            &&& after.attempts == row.attempts + 1
            &&& holds(after, c1)
            &&& (holds(after, c2) ==> c2 == c1)
            &&& claim_step(after, c2, now2, lease2) == (after, false)
        },
{
}

/// Stale writers cannot corrupt state: a renewal, completion, dead letter
/// or retry from a worker that does not hold the job matches no row and
/// leaves it unchanged.
pub proof fn fenced_writes_need_the_claim(row: JobRow, c: Claim, now: int, lease: int, error: Seq<char>, next_run: int)
    requires
        !holds(row, c),
    ensures
        renew_step(row, c, now, lease) == (row, false),
        complete_step(row, c, now) == (row, false),
        dead_letter_step(row, c, now, error) == (row, false),
        retry_step(row, c, now, error, next_run) == (row, false),
{
}

/// A worker whose lease expired and whose job was handed to another attempt
/// (a zombie) cannot write any more: its renewal, completion, dead letter
/// and retry all match no row.
pub proof fn zombie_writes_are_fenced(
    row: JobRow,
    zombie: Claim,
    next: Claim,
    now: int,
    claim_at: int,
    lease: int,
    t: int,
    error: Seq<char>,
    next_run: int,
)
    requires
        holds(row, zombie),
        requeue_expired_step(row, now).1,
        next.attempt != zombie.attempt,
    ensures
        ({
            let taken = claim_step(requeue_expired_step(row, now).0, next, claim_at, lease).0;
            &&& holds(taken, next)
            &&& renew_step(taken, zombie, t, lease) == (taken, false)
            &&& complete_step(taken, zombie, t) == (taken, false)
            &&& dead_letter_step(taken, zombie, t, error) == (taken, false)
            &&& retry_step(taken, zombie, t, error, next_run) == (taken, false)
        }),
{
    let taken = claim_step(requeue_expired_step(row, now).0, next, claim_at, lease).0;
    assert(taken.claim == Some(next));
    assert(!holds(taken, zombie));
    fenced_writes_need_the_claim(taken, zombie, t, lease, error, next_run);
}

/// A complete or failed job is final: no statement but the index marker
/// changes it.
pub proof fn finished_jobs_stay_finished(row: JobRow, c: Claim, now: int, lease: int, error: Seq<char>, next_run: int)
    requires
        is_terminal(row),
    ensures
        schedule_step(row, now) == (row, false),
        claim_step(row, c, now, lease) == (row, false),
        renew_step(row, c, now, lease) == (row, false),
        complete_step(row, c, now) == (row, false),
        dead_letter_step(row, c, now, error) == (row, false),
        retry_step(row, c, now, error, next_run) == (row, false),
        requeue_expired_step(row, now) == (row, false),
{
}

/// Attempts are charged by claims alone: no other statement changes the
/// count.
pub proof fn only_claims_charge_attempts(row: JobRow, c: Claim, now: int, lease: int, error: Seq<char>, next_run: int)
    ensures
        schedule_step(row, now).0.attempts == row.attempts,
        renew_step(row, c, now, lease).0.attempts == row.attempts,
        complete_step(row, c, now).0.attempts == row.attempts,
        dead_letter_step(row, c, now, error).0.attempts == row.attempts,
        retry_step(row, c, now, error, next_run).0.attempts == row.attempts,
        requeue_expired_step(row, now).0.attempts == row.attempts,
        mark_indexed_step(row).0.attempts == row.attempts,
{
}

/// The sweepers and the scheduler are idempotent: running the same
/// statement again at the same instant changes nothing more.
pub proof fn sweeps_are_idempotent(row: JobRow, now: int)
    ensures
        requeue_expired_step(requeue_expired_step(row, now).0, now)
            == (requeue_expired_step(row, now).0, false),
        schedule_step(schedule_step(row, now).0, now) == (schedule_step(row, now).0, false),
        mark_indexed_step(mark_indexed_step(row).0).0 == mark_indexed_step(row).0,
{
}

/// Retry is rescheduling: a retried job is pending, unclaimed and not in
/// the sorted set, which is exactly what the forgotten-job sweeper indexes
/// again and what the scheduler then queues.
pub proof fn retry_reenters_the_pipeline(row: JobRow, c: Claim, now: int, error: Seq<char>, next_run: int, t: int)
    requires
        holds(row, c),
    ensures
        ({
            let retried = retry_step(row, c, now, error, next_run);
            &&& retried.1
            &&& needs_index(retried.0)
            &&& retried.0.claim is None
            &&& retried.0.scheduled_for == next_run
            &&& schedule_step(mark_indexed_step(retried.0).0, t).0.status == JobStatus::Queued
        }),
{
}

/// An expired lease hands the job back to the queue, from which a new
/// claim can take it; a lease that has not expired keeps the job with its
/// worker.
pub proof fn expired_leases_return_to_the_queue(row: JobRow, c: Claim, now: int, c2: Claim, t: int, lease: int)
    requires
        holds(row, c),
    ensures
        lease_expired(row, now) ==> {
            let requeued = requeue_expired_step(row, now).0;
            &&& requeued.status == JobStatus::Queued
            &&& requeued.claim is None
            &&& claim_step(requeued, c2, t, lease).1
        },
        !lease_expired(row, now) ==> requeue_expired_step(row, now) == (row, false),
{
}

/// Whatever a worker decided, its write lands only while it holds the job,
/// and a landed write leaves the job complete, failed, or pending and
/// waiting to be indexed again: never executing without an owner.
pub proof fn verdict_writes_are_fenced(v: Verdict, row: JobRow, c: Claim, now: int, next_run: int)
    ensures
        !holds(row, c) ==> verdict_step(v, row, c, now, next_run) == (row, false),
        v is Abandon ==> verdict_step(v, row, c, now, next_run) == (row, false),
        verdict_step(v, row, c, now, next_run).1 ==> {
            let after = verdict_step(v, row, c, now, next_run).0;
            ||| after.status == JobStatus::Complete
            ||| after.status == JobStatus::Failed
            ||| needs_index(after) && after.claim is None
        },
{
}

} // verus!
