//! A worker's decisions around one job: claim, lease renewal, the verdict on
//! the execution, and whether the stream message may be acknowledged.

use vstd::prelude::*;
use crate::error::{JobError, JobOutcome};
use crate::lifecycle::{JobStatus, verdict_step, write_step};
use vstd::arithmetic::power2::{pow2, lemma2_to64, lemma_pow2_strictly_increases, lemma_pow2_unfold};
use crate::time::{Timestamp, instant, add_millis};

verus! {

/// How long a claim (and each renewal) keeps a job leased to its worker.
pub const LEASE_SECS: i64 = 10;

/// The instant until which a claim or renewal made at `now` leases the job:
/// `LEASE_SECS` later.
pub fn lease_expiry(now: Timestamp) -> (t: Timestamp)
    requires
        now.secs <= i64::MAX - 1_010,
    ensures
        instant(t) == instant(now) + LEASE_SECS * 1_000_000_000,
        t.nanos < 1_000_000_000,
{
    add_millis(now, 10_000)
}

/// How often a running job's lease is renewed.
pub const RENEW_INTERVAL_SECS: u64 = 5;

/// How long a job handler may run before it is treated as hung.
pub const JOB_TIMEOUT_SECS: u64 = 30;

/// A job that this worker has just claimed: the row the claim returned.
pub struct JobToExecute {
    pub id: i32,
    pub job_data: serde_json::Value,
    pub attempts: i32,
    pub max_attempts: i32,
}

/// What the conditional claim UPDATE answered.
pub enum ClaimReply {
    /// The query itself failed.
    QueryFailed,
    /// No row matched: the job is not queued (a duplicate or stale message).
    NotClaimable,
    /// The job is now executing under this worker's attempt id.
    Claimed(JobToExecute),
}

/// What the worker does after the claim.
pub enum ClaimAction {
    /// Give up on this message and leave it pending in the stream.
    GiveUp,
    /// Acknowledge the stale message and move on.
    AckStale,
    /// Run the claimed job.
    Execute(JobToExecute),
}

/// The decision after a claim attempt: a failed query leaves the message for
/// later, a job that was not queued has its message acknowledged, and a
/// claimed job is executed.
pub fn claim_action(reply: ClaimReply) -> (action: ClaimAction)
    ensures
        (reply is QueryFailed) <==> (action is GiveUp),
        (reply is NotClaimable) <==> (action is AckStale),
        reply matches ClaimReply::Claimed(job) ==> action == ClaimAction::Execute(job),
{
    match reply {
        ClaimReply::QueryFailed => ClaimAction::GiveUp,
        ClaimReply::NotClaimable => ClaimAction::AckStale,
        ClaimReply::Claimed(job) => ClaimAction::Execute(job),
    }
}

/// What the renewal task does after one fenced lease-renewal UPDATE.
#[derive(Clone, Copy, Debug, PartialEq, Eq, Structural)]
pub enum RenewalAction {
    /// The lease was extended (or the query failed): keep running.
    KeepRunning,
    /// The fence matched no row: ownership is lost, cancel the execution.
    CancelExecution,
}

/// The decision after a lease renewal that updated `rows` rows (`Err` when
/// the query failed): exactly one row means the lease is held; any other
/// count means the job no longer belongs to this attempt; a failed query is
/// retried at the next tick.
pub fn renewal_action(rows: Result<u64, ()>) -> (action: RenewalAction)
    ensures
        action == (match rows {
            Ok(n) => if n == 1 { RenewalAction::KeepRunning } else { RenewalAction::CancelExecution },
            Err(_) => RenewalAction::KeepRunning,
        }),
{
    match rows {
        Ok(n) => if n == 1 { RenewalAction::KeepRunning } else { RenewalAction::CancelExecution },
        Err(_) => RenewalAction::KeepRunning,
    }
}

/// How the execution of a job handler ended, as the worker observed it.
pub enum Execution {
    /// The handler returned.
    Returned(Result<(), JobError>),
    /// The handler panicked; the text of the join error.
    Panicked(String),
    /// The handler ran past the timeout and was aborted.
    TimedOut,
    /// The lease was lost first and the handler was aborted.
    LeaseLost,
}

/// An outcome as plain values: success, a failure (permanent or not, with
/// its message), or a lost lease.
pub enum OutcomeView {
    Success,
    Failed { permanent: bool, message: Seq<char> },
    LeaseLost,
}

/// The plain form of an outcome.
pub open spec fn outcome_view(o: JobOutcome) -> OutcomeView {
    match o {
        JobOutcome::Success => OutcomeView::Success,
        JobOutcome::Failed(e) => OutcomeView::Failed { permanent: e.is_permanent(), message: e.message_view() },
        JobOutcome::LeaseLost => OutcomeView::LeaseLost,
    }
}

/// The outcome of an execution: a handler's own result stands; a panic is a
/// retryable failure with "panicked: " before the join error's text, a
/// timeout a retryable failure "timed out".
pub open spec fn execution_view(e: Execution) -> OutcomeView {
    match e {
        Execution::Returned(Ok(())) => OutcomeView::Success,
        Execution::Returned(Err(err)) => OutcomeView::Failed {
            permanent: err.is_permanent(),
            message: err.message_view(),
        },
        Execution::Panicked(text) => OutcomeView::Failed { permanent: false, message: "panicked: "@ + text@ },
        Execution::TimedOut => OutcomeView::Failed { permanent: false, message: "timed out"@ },
        Execution::LeaseLost => OutcomeView::LeaseLost,
    }
}

/// The outcome of an execution: panics and timeouts are retryable failures.
pub fn execution_outcome(execution: Execution) -> (outcome: JobOutcome)
    ensures
        outcome_view(outcome) == execution_view(execution),
        match execution {
            Execution::Returned(Ok(())) => outcome == JobOutcome::Success,
            Execution::Returned(Err(e)) => outcome == JobOutcome::Failed(e),
            Execution::Panicked(text) => outcome matches JobOutcome::Failed(JobError::Retryable(m))
                && m@ == "panicked: "@ + text@,
            Execution::TimedOut => outcome matches JobOutcome::Failed(JobError::Retryable(m))
                && m@ == "timed out"@,
            Execution::LeaseLost => outcome == JobOutcome::LeaseLost,
        },
{
    match execution {
        Execution::Returned(Ok(())) => JobOutcome::Success,
        Execution::Returned(Err(e)) => JobOutcome::Failed(e),
        Execution::Panicked(text) => {
            let mut m = "panicked: ".to_owned();
            m.append(text.as_str());
            JobOutcome::Failed(JobError::Retryable(m))
        },
        Execution::TimedOut => JobOutcome::Failed(JobError::Retryable("timed out".to_owned())),
        Execution::LeaseLost => JobOutcome::LeaseLost,
    }
}

/// What the worker writes once the execution has ended.
#[derive(Debug, PartialEq, Eq)]
pub enum Verdict {
    /// The lease was lost: write nothing and walk away.
    Abandon,
    /// Fenced write: the job is complete.
    Complete,
    /// Fenced write: the job is failed for good, with this error recorded.
    DeadLetter(String),
    /// Fenced write: the job is pending again after a backoff, with this error recorded.
    Retry(String),
}

/// A verdict as plain values.
pub enum VerdictView {
    Abandon,
    Complete,
    DeadLetter(Seq<char>),
    Retry(Seq<char>),
}

/// The plain form of a verdict.
pub open spec fn verdict_view(v: Verdict) -> VerdictView {
    match v {
        Verdict::Abandon => VerdictView::Abandon,
        Verdict::Complete => VerdictView::Complete,
        Verdict::DeadLetter(m) => VerdictView::DeadLetter(m@),
        Verdict::Retry(m) => VerdictView::Retry(m@),
    }
}

/// The verdict on an outcome after `attempts` of `max_attempts` attempts:
/// a lost lease writes nothing, a success completes, a permanent failure or
/// an exhausted budget dead-letters with the failure's message, and any
/// other failure is retried with it.
pub open spec fn verdict_for(o: OutcomeView, attempts: i32, max_attempts: i32) -> VerdictView {
    match o {
        OutcomeView::LeaseLost => VerdictView::Abandon,
        OutcomeView::Success => VerdictView::Complete,
        OutcomeView::Failed { permanent, message } =>
            if permanent || exhausted(attempts, max_attempts) {
                VerdictView::DeadLetter(message)
            } else {
                VerdictView::Retry(message)
            },
    }
}

/// True when a job has used up its attempt budget.
pub open spec fn exhausted(attempts: i32, max_attempts: i32) -> bool {
    attempts >= max_attempts
}

/// The verdict on an outcome, given the attempts charged so far (the claim
/// has already counted this one): a lost lease writes nothing, a success
/// completes, a permanent failure or an exhausted budget dead-letters, and
/// any other failure is retried.
pub fn verdict(outcome: JobOutcome, attempts: i32, max_attempts: i32) -> (v: Verdict)
    ensures
        verdict_view(v) == verdict_for(outcome_view(outcome), attempts, max_attempts),
        match outcome {
            JobOutcome::LeaseLost => v == Verdict::Abandon,
            JobOutcome::Success => v == Verdict::Complete,
            JobOutcome::Failed(e) =>
                if e.is_permanent() || attempts >= max_attempts {
                    v matches Verdict::DeadLetter(m) && m@ == e.message_view()
                } else {
                    v matches Verdict::Retry(m) && m@ == e.message_view()
                },
        },
{
    match outcome {
        JobOutcome::LeaseLost => Verdict::Abandon,
        JobOutcome::Success => Verdict::Complete,
        JobOutcome::Failed(err) => {
            let (msg, permanent) = match err {
                JobError::Permanent(m) => (m, true),
                JobError::Retryable(m) => (m, false),
            };
            let exhausted = attempts >= max_attempts;
            if permanent || exhausted {
                Verdict::DeadLetter(msg)
            } else {
                Verdict::Retry(msg)
            }
        },
    }
}

/// What the worker does after its fenced final write.
#[derive(Clone, Copy, Debug, PartialEq, Eq, Structural)]
pub enum FinishAction {
    /// Exactly one row was written: acknowledge the stream message.
    Ack,
    /// The fence matched nothing: ownership was lost; leave the message.
    Fenced,
    /// The write failed; leave the message for recovery.
    WriteFailed,
}

/// The decision after the final fenced write that updated `rows` rows (`Err`
/// when the query failed): the message is acknowledged only when exactly one
/// row was written.
pub fn finish_action(rows: Result<u64, ()>) -> (action: FinishAction)
    ensures
        (action == FinishAction::Ack) <==> (rows == Ok::<u64, ()>(1)),
        (action == FinishAction::Fenced) <==> (rows matches Ok(n) && n != 1),
        (action == FinishAction::WriteFailed) <==> (rows is Err),
{
    match rows {
        Ok(n) => if n == 1 { FinishAction::Ack } else { FinishAction::Fenced },
        Err(_) => FinishAction::WriteFailed,
    }
}

/// The longest delay before a retry: five minutes.
pub const MAX_BACKOFF_MS: u64 = 300_000;

/// The delay before a job that failed after `attempts` attempts runs again,
/// in milliseconds: five seconds doubled per attempt, scaled by a jitter
/// factor drawn from [0.5, 1.5) in thousandths (`jitter_permille` is the
/// draw above 0.5), then capped at five minutes; never below one
/// millisecond.
pub open spec fn retry_delay(attempts: i32, jitter_permille: u32) -> int {
    let raw: int = if attempts >= 0 {
        5000 * (pow2(attempts as nat) as int) * (500 + jitter_permille) / 1000
    } else {
        5000 * (500 + jitter_permille) / (1000 * (pow2((-attempts) as nat) as int))
    };
    if raw < 1 {
        1
    } else if raw > MAX_BACKOFF_MS {
        MAX_BACKOFF_MS as int
    } else {
        raw
    }
}

/// The jittered retry delay in milliseconds, within five minutes.
pub fn retry_delay_ms(attempts: i32, jitter_permille: u32) -> (ms: u64)
    requires
        jitter_permille < 1000,
    ensures
        ms as int == retry_delay(attempts, jitter_permille),
        1 <= ms <= MAX_BACKOFF_MS,
{
    let scale: u64 = 500 + jitter_permille as u64;
    let raw: u64 = if attempts >= 0 {
        // 5000 * 2^i for i up to 7: from 2^7 on, the jittered delay is past the cap
        let mut base: u64 = 5000;
        let mut i: i32 = 0;
        proof {
            lemma2_to64();
        }
        while i < attempts && i < 7
            invariant
                0 <= i <= 7,
                i <= attempts,
                base as int == 5000 * (pow2(i as nat) as int),
                base <= 640_000,
            decreases 7 - i,
        {
            proof {
                lemma_pow2_unfold((i + 1) as nat);
                lemma2_to64();
                if i + 1 < 7 {
                    lemma_pow2_strictly_increases((i + 1) as nat, 7);
                } else {
                    assert((i + 1) as nat == 7nat);
                }
            }
            base = base * 2;
            i = i + 1;
        }
        assert(base * scale <= 640_000 * 1500) by (nonlinear_arith)
            requires
                base <= 640_000,
                scale < 1500;
        let r: u64 = base * scale / 1000;
        proof {
            let exact: int = 5000 * (pow2(attempts as nat) as int) * (500 + jitter_permille) / 1000;
            if i < attempts {
                // i == 7: both the computed and the exact delay are past the cap
                lemma2_to64();
                if attempts > 7 {
                    lemma_pow2_strictly_increases(7, attempts as nat);
                }
                let p: int = pow2(attempts as nat) as int;
                assert(exact >= 320_000) by (nonlinear_arith)
                    requires
                        p >= 128,
                        exact == 5000 * p * (500 + jitter_permille) / 1000;
                assert(r >= 320_000) by (nonlinear_arith)
                    requires
                        base == 640_000,
                        scale >= 500,
                        r == base * scale / 1000;
            } else {
                assert(r == exact);
            }
        }
        r
    } else if attempts < -12 {
        proof {
            lemma2_to64();
            if -attempts > 13 {
                lemma_pow2_strictly_increases(13, (-attempts) as nat);
            }
            let p: int = pow2((-attempts) as nat) as int;
            assert(5000 * (500 + jitter_permille) < 1000 * p) by (nonlinear_arith)
                requires
                    p >= 8192,
                    jitter_permille < 1000;
            vstd::arithmetic::div_mod::lemma_basic_div(5000 * (500 + jitter_permille), 1000 * p);
        }
        0
    } else {
        let k: i32 = -attempts;
        let mut den: u64 = 1000;
        let mut i: i32 = 0;
        proof {
            lemma2_to64();
        }
        while i < k
            invariant
                0 <= i <= k <= 12,
                k == -attempts,
                den as int == 1000 * (pow2(i as nat) as int),
                den <= 1000 * 4096,
            decreases k - i,
        {
            proof {
                lemma_pow2_unfold((i + 1) as nat);
                lemma2_to64();
                if i + 1 < 12 {
                    lemma_pow2_strictly_increases((i + 1) as nat, 12);
                } else {
                    assert((i + 1) as nat == 12nat);
                }
            }
            den = den * 2;
            i = i + 1;
        }
        assert(i as nat == (-attempts) as nat);
        5000 * scale / den
    };
    if raw < 1 {
        1
    } else if raw > MAX_BACKOFF_MS {
        MAX_BACKOFF_MS
    } else {
        raw
    }
}

/// The instant at which a job retried at `finish` after `attempts` attempts
/// runs again: the jittered, capped delay after `finish`.
pub fn retry_at(finish: Timestamp, attempts: i32, jitter_permille: u32) -> (t: Timestamp)
    requires
        jitter_permille < 1000,
        finish.secs <= i64::MAX - 1_010,
    ensures
        instant(t) == instant(finish) + retry_delay(attempts, jitter_permille) * 1_000_000,
        instant(finish) < instant(t) <= instant(finish) + 300_000_000_000,
        t.nanos < 1_000_000_000,
{
    add_millis(finish, retry_delay_ms(attempts, jitter_permille))
}

/// The columns that the final fenced write sets: the new status, the error
/// to record (if any), whether the claim is released, and, for a retry,
/// the instant at which the job runs again (which also clears its index
/// marker). The lease is always cleared.
pub struct FencedWrite {
    pub status: JobStatus,
    pub last_error: Option<String>,
    pub release_claim: bool,
    pub retry_at: Option<Timestamp>,
}

/// The instant at which a write reschedules its job (0 when it does not).
pub open spec fn rescheduled_for(w: FencedWrite) -> int {
    match w.retry_at {
        Some(t) => instant(t),
        None => 0,
    }
}

/// The fenced write that a verdict asks for at `finish`, after `attempts`
/// attempts and with the given jitter: success completes; a dead letter
/// fails the job with its error and releases the claim; a retry makes it
/// pending again after the jittered backoff (at most five minutes after
/// `finish`, and after it), with its error recorded, its claim released and
/// its index marker cleared. A lost lease writes nothing. On every row the
/// write has the effect that `verdict_step` gives the verdict.
pub fn fenced_write(v: Verdict, attempts: i32, jitter_permille: u32, finish: Timestamp) -> (w: Option<FencedWrite>)
    requires
        jitter_permille < 1000,
        finish.secs <= i64::MAX - 1_010,
    ensures
        (v is Abandon) <==> (w is None),
        match w {
            Some(w) => {
                &&& (w.retry_at is Some) <==> (v is Retry)
                &&& w.retry_at matches Some(t) ==> {
                    &&& instant(t) == instant(finish) + retry_delay(attempts, jitter_permille) * 1_000_000
                    &&& instant(finish) < instant(t) <= instant(finish) + 300_000_000_000
                }
                &&& forall|row, c, now| #[trigger] write_step(w, row, c, now)
                    == verdict_step(v, row, c, now, rescheduled_for(w))
            },
            None => true,
        },
{
    match v {
        Verdict::Abandon => None,
        Verdict::Complete => Some(FencedWrite {
            status: JobStatus::Complete,
            last_error: None,
            release_claim: false,
            retry_at: None,
        }),
        Verdict::DeadLetter(m) => Some(FencedWrite {
            status: JobStatus::Failed,
            last_error: Some(m),
            release_claim: true,
            retry_at: None,
        }),
        Verdict::Retry(m) => Some(FencedWrite {
            status: JobStatus::Pending,
            last_error: Some(m),
            release_claim: true,
            retry_at: Some(retry_at(finish, attempts, jitter_permille)),
        }),
    }
}

/// Where a worker is in handling one stream message.
#[derive(Clone, Copy, Debug, PartialEq, Eq, Structural)]
pub enum Phase {
    /// The claim UPDATE has been sent.
    Claiming,
    /// The job is running; the claim charged `attempts` of `max_attempts`.
    Running { attempts: i32, max_attempts: i32 },
    /// The fenced final write has been sent.
    Writing,
    /// Nothing more to do for this message.
    Done,
}

/// What the worker learned since the last step.
pub enum WorkerEvent {
    /// The claim UPDATE answered.
    Claimed(ClaimReply),
    /// The execution ended.
    Ran(Execution),
    /// The final fenced write updated this many rows (`Err` if it failed).
    Wrote(Result<u64, ()>),
}

/// What the worker does next.
pub enum WorkerCommand {
    /// Run the claimed job (and renew its lease meanwhile).
    Execute(JobToExecute),
    /// Send the fenced write for this verdict.
    Write(Verdict),
    /// Acknowledge the stream message.
    Ack,
    /// Leave the stream message unacknowledged.
    Leave,
}

/// The handling of one stream message: claim, run, write, acknowledge.
pub struct JobHandler {
    phase: Phase,
}

impl View for JobHandler {
    type V = Phase;

    closed spec fn view(&self) -> Phase {
        self.phase
    }
}

/// The phase after the claim answered, and whether the command is what the
/// answer calls for.
pub open spec fn after_claim(reply: ClaimReply, cmd: WorkerCommand, next: Phase) -> bool {
    match reply {
        ClaimReply::QueryFailed => cmd is Leave && next == Phase::Done,
        ClaimReply::NotClaimable => cmd is Ack && next == Phase::Done,
        ClaimReply::Claimed(job) => cmd == WorkerCommand::Execute(job)
            && next == (Phase::Running { attempts: job.attempts, max_attempts: job.max_attempts }),
    }
}

/// The phase after the execution ended, and whether the command is the
/// fenced write of the verdict on it (nothing at all for a lost lease).
pub open spec fn after_run(execution: Execution, attempts: i32, max_attempts: i32, cmd: WorkerCommand, next: Phase) -> bool {
    match verdict_for(execution_view(execution), attempts, max_attempts) {
        VerdictView::Abandon => cmd is Leave && next == Phase::Done,
        w => next == Phase::Writing && match cmd {
            WorkerCommand::Write(v) => verdict_view(v) == w,
            _ => false,
        },
    }
}

/// The command after the final write: the message is acknowledged exactly
/// when the write updated one row.
pub open spec fn after_write(rows: Result<u64, ()>, cmd: WorkerCommand, next: Phase) -> bool {
    next == Phase::Done && if rows == Ok::<u64, ()>(1) { cmd is Ack } else { cmd is Leave }
}

impl JobHandler {
    /// Starts handling a message: the claim is the first thing sent.
    pub fn new() -> (h: JobHandler)
        ensures
            h@ == Phase::Claiming,
    {
        JobHandler { phase: Phase::Claiming }
    }

    /// The phase the handling is in.
    pub fn phase(&self) -> (p: Phase)
        ensures
            p == self@,
    {
        self.phase
    }

    /// One step of handling a message. A message whose job was not queued
    /// (stale or duplicate) is acknowledged; a failed claim query leaves it;
    /// a claimed job is run. When the run ends, a lost lease ends the
    /// handling without any write; otherwise the verdict on the outcome is
    /// written with a fence: success completes, a permanent failure or an
    /// exhausted budget dead-letters, any other failure (a timeout and a
    /// panic among them) is retried. The message is then acknowledged
    /// exactly when that write updated one row. An event that does not fit
    /// the phase changes nothing.
    pub fn step(&mut self, event: WorkerEvent) -> (cmd: WorkerCommand)
        ensures
            match (old(self)@, event) {
                (Phase::Claiming, WorkerEvent::Claimed(reply)) => after_claim(reply, cmd, final(self)@),
                (Phase::Running { attempts, max_attempts }, WorkerEvent::Ran(e)) =>
                    after_run(e, attempts, max_attempts, cmd, final(self)@),
                (Phase::Writing, WorkerEvent::Wrote(rows)) => after_write(rows, cmd, final(self)@),
                _ => cmd is Leave && final(self)@ == old(self)@,
            },
    {
        match (self.phase, event) {
            (Phase::Claiming, WorkerEvent::Claimed(reply)) => {
                match claim_action(reply) {
                    ClaimAction::GiveUp => {
                        self.phase = Phase::Done;
                        WorkerCommand::Leave
                    },
                    ClaimAction::AckStale => {
                        self.phase = Phase::Done;
                        WorkerCommand::Ack
                    },
                    ClaimAction::Execute(job) => {
                        self.phase = Phase::Running { attempts: job.attempts, max_attempts: job.max_attempts };
                        WorkerCommand::Execute(job)
                    },
                }
            },
            (Phase::Running { attempts, max_attempts }, WorkerEvent::Ran(execution)) => {
                let ghost e = execution;
                let outcome = execution_outcome(execution);
                let v = verdict(outcome, attempts, max_attempts);
                assert(verdict_view(v) == verdict_for(execution_view(e), attempts, max_attempts));
                match v {
                    Verdict::Abandon => {
                        self.phase = Phase::Done;
                        WorkerCommand::Leave
                    },
                    v => {
                        self.phase = Phase::Writing;
                        WorkerCommand::Write(v)
                    },
                }
            },
            (Phase::Writing, WorkerEvent::Wrote(rows)) => {
                self.phase = Phase::Done;
                match finish_action(rows) {
                    FinishAction::Ack => WorkerCommand::Ack,
                    _ => WorkerCommand::Leave,
                }
            },
            (_, _) => WorkerCommand::Leave,
        }
    }
}

/// Runs a job's handler on its payload. Every job currently succeeds.
pub fn execute_job(job_data: &serde_json::Value) -> (r: Result<(), JobError>)
    ensures
        r == Ok::<(), JobError>(()),
{
    Ok(())
}

/// The attempt budget decides a retryable failure, whatever the budget:
/// while `attempts < max_attempts` it is retried with its message, and once
/// the attempts reach `max_attempts` it is dead-lettered with it. A permanent
/// failure is dead-lettered at once, a success completes, and a lost lease
/// writes nothing.
pub proof fn verdict_follows_the_budget(outcome: JobOutcome, attempts: i32, max_attempts: i32, v: Verdict)
    requires
        verdict_view(v) == verdict_for(outcome_view(outcome), attempts, max_attempts),
    ensures
        match outcome {
            JobOutcome::LeaseLost => v == Verdict::Abandon,
            JobOutcome::Success => v == Verdict::Complete,
            JobOutcome::Failed(JobError::Permanent(m)) => v matches Verdict::DeadLetter(x) && x@ == m@,
            JobOutcome::Failed(JobError::Retryable(m)) => if attempts < max_attempts {
                v matches Verdict::Retry(x) && x@ == m@
            } else {
                v matches Verdict::DeadLetter(x) && x@ == m@
            },
        },
        exhausted(attempts, max_attempts) <==> attempts >= max_attempts,
{
}

/// A stale or duplicate message (its job not queued) is acknowledged, a
/// failed claim query leaves the message, and a claimed job is run with the
/// attempts the claim charged.
pub proof fn claim_replies(reply: ClaimReply, cmd: WorkerCommand, next: Phase)
    requires
        after_claim(reply, cmd, next),
    ensures
        reply is NotClaimable ==> (cmd is Ack && next == Phase::Done),
        reply is QueryFailed ==> (cmd is Leave && next == Phase::Done),
        reply matches ClaimReply::Claimed(job) ==> (cmd == WorkerCommand::Execute(job)
            && next == (Phase::Running { attempts: job.attempts, max_attempts: job.max_attempts })),
{
}

/// The message is acknowledged after the final write exactly when that
/// write updated one row; the handling then ends either way.
pub proof fn ack_only_after_one_row(rows: Result<u64, ()>, cmd: WorkerCommand, next: Phase)
    requires
        after_write(rows, cmd, next),
    ensures
        (cmd is Ack) <==> (rows == Ok::<u64, ()>(1)),
        !(cmd is Ack) ==> cmd is Leave,
        next == Phase::Done,
{
}

/// The first retry waits five seconds scaled by the jitter (2.5 s to just
/// under 7.5 s), and each further attempt doubles the wait until the
/// five-minute cap, which it never passes.
pub proof fn retry_delay_doubles_to_the_cap(attempts: i32, jitter_permille: u32)
    requires
        jitter_permille < 1000,
    ensures
        retry_delay(0, jitter_permille) == 5 * (500 + jitter_permille),
        0 <= attempts < i32::MAX ==> retry_delay((attempts + 1) as i32, jitter_permille) == (
            if 2 * retry_delay(attempts, jitter_permille) < MAX_BACKOFF_MS {
                2 * retry_delay(attempts, jitter_permille)
            } else {
                MAX_BACKOFF_MS as int
            }),
        1 <= retry_delay(attempts, jitter_permille) <= MAX_BACKOFF_MS,
{
    lemma2_to64();
    assert(retry_delay(0, jitter_permille) == 5 * (500 + jitter_permille));
    if 0 <= attempts < i32::MAX {
        let a = attempts;
        let b = (attempts + 1) as i32;
        lemma_pow2_unfold(b as nat);
        let p: int = pow2(a as nat) as int;
        let q: int = pow2(b as nat) as int;
        assert(q == 2 * p);
        vstd::arithmetic::power2::lemma_pow2_pos(a as nat);
        let j: int = jitter_permille as int;
        assert(5000 * p * (500 + j) / 1000 == 5 * p * (500 + j)) by (nonlinear_arith)
            requires p >= 1;
        assert(5000 * q * (500 + j) / 1000 == 2 * (5 * p * (500 + j))) by (nonlinear_arith)
            requires q == 2 * p, p >= 1;
        assert(5 * p * (500 + j) >= 1) by (nonlinear_arith)
            requires p >= 1, j >= 0;
    }
}

/// True when `cmd` is the fenced write of a failure with message `m` after
/// `attempts` of `max_attempts`: a retry while attempts remain, a dead
/// letter once they are used up.
pub open spec fn writes_failure(cmd: WorkerCommand, m: Seq<char>, attempts: i32, max_attempts: i32) -> bool {
    if attempts < max_attempts {
        cmd matches WorkerCommand::Write(Verdict::Retry(x)) && x@ == m
    } else {
        cmd matches WorkerCommand::Write(Verdict::DeadLetter(x)) && x@ == m
    }
}

/// What a worker writes once its job's run has ended: a success is written
/// as complete; a permanent failure is dead-lettered with its message; a
/// retryable failure, a timeout ("timed out") and a panic ("panicked: " and
/// the join error) are retried while attempts remain and dead-lettered once
/// they are used up; a lost lease writes nothing and ends the handling.
pub proof fn run_end_writes(e: Execution, attempts: i32, max_attempts: i32, cmd: WorkerCommand, next: Phase)
    requires
        after_run(e, attempts, max_attempts, cmd, next),
    ensures
        match e {
            Execution::LeaseLost => cmd is Leave && next == Phase::Done,
            Execution::Returned(Ok(())) => cmd == WorkerCommand::Write(Verdict::Complete) && next == Phase::Writing,
            Execution::Returned(Err(JobError::Permanent(m))) =>
                (cmd matches WorkerCommand::Write(Verdict::DeadLetter(x)) && x@ == m@) && next == Phase::Writing,
            Execution::Returned(Err(JobError::Retryable(m))) =>
                writes_failure(cmd, m@, attempts, max_attempts) && next == Phase::Writing,
            Execution::Panicked(t) =>
                writes_failure(cmd, "panicked: "@ + t@, attempts, max_attempts) && next == Phase::Writing,
            Execution::TimedOut =>
                writes_failure(cmd, "timed out"@, attempts, max_attempts) && next == Phase::Writing,
        },
{
}

} // verus!
