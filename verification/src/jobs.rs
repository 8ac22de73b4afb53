//! Job submission: validating a request, batching submissions into group
//! commits, answering each submitter from the batch's result, and batching
//! the "indexed in Redis" markers.

use vstd::prelude::*;
use crate::time::{Timestamp, rfc3339_instant, parse_timestamp};

verus! {

/// The submitting user.
pub struct User {
    pub username: String,
}

/// A job submission: the user, the job's payload, and when it should run
/// (RFC 3339; absent means now).
pub struct JobRequest {
    pub user: User,
    pub job: serde_json::Value,
    pub scheduled_for: Option<String>,
}

/// A validated submission on its way to the batch flusher.
pub struct JobBatchItem {
    pub username: String,
    pub job: serde_json::Value,
    pub scheduled_for: Timestamp,
}

/// Why a submission is refused, each with its HTTP status.
#[derive(Clone, Copy, Debug, PartialEq, Eq, Structural)]
pub enum Rejection {
    /// The request is malformed (400).
    BadRequest,
    /// The batch flusher is gone (503).
    Unavailable,
    /// The insert or the Redis write failed (500).
    Internal,
}

impl Rejection {
    /// The HTTP status code of the rejection.
    pub fn status_code(&self) -> (code: u16)
        ensures
            code == (match self {
                Rejection::BadRequest => 400u16,
                Rejection::Unavailable => 503u16,
                Rejection::Internal => 500u16,
            }),
    {
        match self {
            Rejection::BadRequest => 400,
            Rejection::Unavailable => 503,
            Rejection::Internal => 500,
        }
    }
}

/// When a submission runs: its own `scheduled_for` when given (`None` where
/// that does not parse), `now` otherwise.
pub open spec fn schedule_of(scheduled_for: Option<String>, now: Timestamp) -> Option<Timestamp> {
    match scheduled_for {
        None => Some(now),
        Some(text) => match rfc3339_instant(text@) {
            Some((s, n)) => Some(Timestamp { secs: s, nanos: n }),
            None => None,
        },
    }
}

/// Only a text that does not parse refuses a submission: a requested
/// instant is taken as it is, whatever `now` is (past instants too, which
/// then run at once), and `now` is used only when no instant is requested.
pub proof fn requested_instants_are_kept(text: String, now: Timestamp, other_now: Timestamp)
    ensures
        schedule_of(Some(text), now) == schedule_of(Some(text), other_now),
        (schedule_of(Some(text), now) is None) <==> (rfc3339_instant(text@) is None),
        rfc3339_instant(text@) matches Some((s, n))
            ==> schedule_of(Some(text), now) == Some(Timestamp { secs: s, nanos: n }),
        schedule_of(None, now) == Some(now),
{
}

/// Validates a submission before anything is made durable: a
/// `scheduled_for` that is not RFC 3339 is a bad request; otherwise the item
/// carries the user's name, the payload and the instant it should run.
pub fn prepare_job(request: JobRequest, now: Timestamp) -> (r: Result<JobBatchItem, Rejection>)
    ensures
        match schedule_of(request.scheduled_for, now) {
            None => r == Err::<JobBatchItem, Rejection>(Rejection::BadRequest),
            Some(t) => r matches Ok(item) && item.username == request.user.username
                && item.job == request.job && item.scheduled_for == t,
        },
{
    let JobRequest { user, job, scheduled_for } = request;
    let scheduled = match scheduled_for {
        None => now,
        Some(text) => match parse_timestamp(text.as_str()) {
            Some(t) => t,
            None => return Err(Rejection::BadRequest),
        },
    };
    Ok(JobBatchItem { username: user.username, job, scheduled_for: scheduled })
}

/// What a submitter hears back about the insert of its item.
pub enum InsertReply {
    /// The batch channel is closed: the flusher is gone.
    ChannelClosed,
    /// The flusher dropped the reply handle without answering.
    Dropped,
    /// The batch insert failed.
    Failed(String),
    /// The row is committed under this id.
    Inserted(i32),
}

/// What a submitter's wait for the insert comes to: the job id once the
/// row is committed; a closed channel is 503, a dropped or failed insert is
/// 500.
pub open spec fn insert_result(reply: InsertReply) -> Result<i32, Rejection> {
    match reply {
        InsertReply::ChannelClosed => Err(Rejection::Unavailable),
        InsertReply::Dropped => Err(Rejection::Internal),
        InsertReply::Failed(_) => Err(Rejection::Internal),
        InsertReply::Inserted(id) => Ok(id),
    }
}

/// The job id once the row is committed; a closed channel is 503, a dropped
/// or failed insert is 500.
pub fn inserted_job_id(reply: InsertReply) -> (r: Result<i32, Rejection>)
    ensures
        r == insert_result(reply),
{
    match reply {
        InsertReply::ChannelClosed => Err(Rejection::Unavailable),
        InsertReply::Dropped => Err(Rejection::Internal),
        InsertReply::Failed(_) => Err(Rejection::Internal),
        InsertReply::Inserted(id) => Ok(id),
    }
}

/// A submission is acknowledged only after its row is committed: the wait
/// yields a job id only from the flusher's report of a committed insert,
/// and it is that row's id.
pub proof fn acknowledged_only_after_commit(reply: InsertReply)
    ensures
        insert_result(reply) matches Ok(id) ==> reply == InsertReply::Inserted(id),
        !(reply is Inserted) ==> insert_result(reply) is Err,
{
}

/// The score of a job in the `pending_jobs` sorted set: the whole seconds of
/// the instant it should run.
pub fn redis_score(t: Timestamp) -> (score: i64)
    ensures
        score == t.secs,
{
    t.secs
}

/// The body of a successful submission.
pub struct JobCreateResponse {
    job_id: i32,
    message: String,
}

impl View for JobCreateResponse {
    type V = (i32, Seq<char>);

    closed spec fn view(&self) -> (i32, Seq<char>) {
        (self.job_id, self.message@)
    }
}

impl JobCreateResponse {
    /// A response for `job_id` with the given message.
    pub fn new(job_id: i32, message: String) -> (r: JobCreateResponse)
        ensures
            r@ == (job_id, message@),
    {
        JobCreateResponse { job_id, message }
    }

    /// The id of the created job.
    pub fn job_id(&self) -> (id: i32)
        ensures
            id == self@.0,
    {
        self.job_id
    }

    /// The message to the client.
    pub fn message(&self) -> (m: &String)
        ensures
            m@ == self@.1,
    {
        &self.message
    }
}

/// The answer to a submission whose row is committed under `job_id`, once
/// the Redis sorted-set write has been tried: a failed write is 500,
/// otherwise the job id with "Job Created Successfully".
pub fn index_reply(job_id: i32, indexed: bool) -> (r: Result<JobCreateResponse, Rejection>)
    ensures
        !indexed ==> r == Err::<JobCreateResponse, Rejection>(Rejection::Internal),
        indexed ==> (r matches Ok(resp) && resp@ == (job_id, "Job Created Successfully"@)),
{
    if !indexed {
        return Err(Rejection::Internal);
    }
    Ok(JobCreateResponse::new(job_id, "Job Created Successfully".to_owned()))
}

} // verus!
