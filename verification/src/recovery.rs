//! The forgotten-job sweeper: pending jobs that never made it into the
//! `pending_jobs` sorted set (a failed Redis write, or a retry) are indexed
//! again under their scheduled instant.

use vstd::prelude::*;
use crate::time::Timestamp;
use crate::jobs::redis_score;
use crate::scheduler::{confirmed, confirmed_members};

verus! {

/// How often each sweeper runs.
pub const SWEEP_INTERVAL_SECS: u64 = 5;

/// How often a worker takes over stream messages that another consumer
/// left unacknowledged.
pub const STREAM_RECOVERY_INTERVAL_SECS: u64 = 15;

/// How long a stream message stays unacknowledged before another worker
/// may take it over.
pub const STREAM_IDLE_MS: usize = 30000;

/// How many stream messages one take-over pass claims.
pub const STREAM_CLAIM_COUNT: usize = 10;

/// A pending job that is not marked as indexed in Redis.
#[derive(Clone, Copy, Debug, PartialEq, Eq, Structural)]
pub struct ForgottenJob {
    pub id: i32,
    pub scheduled_for: Timestamp,
}

/// The sorted-set entries that re-index forgotten jobs: each job under its
/// own id, scored by the whole seconds of its scheduled instant, in order.
pub fn index_entries(jobs: &Vec<ForgottenJob>) -> (entries: Vec<(i32, i64)>)
    ensures
        entries@.len() == jobs@.len(),
        forall|i: int| 0 <= i < jobs@.len() ==>
            #[trigger] entries@[i] == (jobs@[i].id, jobs@[i].scheduled_for.secs),
{
    let mut entries: Vec<(i32, i64)> = Vec::new();
    let mut i: usize = 0;
    while i < jobs.len()
        invariant
            i <= jobs@.len(),
            entries@.len() == i,
            forall|k: int| 0 <= k < i ==>
                #[trigger] entries@[k] == (jobs@[k].id, jobs@[k].scheduled_for.secs),
        decreases jobs.len() - i,
    {
        let job = jobs[i];
        entries.push((job.id, redis_score(job.scheduled_for)));
        i = i + 1;
    }
    entries
}

/// The forgotten jobs to mark as indexed after a pass: those whose
/// sorted-set write succeeded, in order. `written` pairs each job id with
/// whether its ZADD succeeded.
pub fn ids_to_mark(written: &Vec<(i32, bool)>) -> (ids: Vec<i32>)
    ensures
        ids@ == confirmed(written@, written@.len()),
{
    let mut ids: Vec<i32> = Vec::new();
    let mut i: usize = 0;
    while i < written.len()
        invariant
            i <= written.len(),
            ids@ == confirmed(written@, i as nat),
        decreases written.len() - i,
    {
        let (id, ok) = written[i];
        if ok {
            ids.push(id);
        }
        i = i + 1;
    }
    ids
}

/// A forgotten job is marked as indexed exactly when its sorted-set write
/// succeeded.
pub proof fn marked_iff_indexed(written: Seq<(i32, bool)>, x: i32)
    ensures
        confirmed(written, written.len()).contains(x)
            <==> exists|i: int| 0 <= i < written.len() && written[i] == (x, true),
{
    confirmed_members(written, written.len(), x);
}

} // verus!
