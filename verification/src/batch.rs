//! Group commit: submissions are collected into batches of at most
//! `MAX_BATCH` items or `BATCH_WINDOW_MS` milliseconds, each batch is
//! inserted with one statement and one commit, and every submitter is then
//! answered from the batch's result. The "indexed in Redis" markers are
//! batched the same way, by `MARKER_BATCH` ids or `MARKER_INTERVAL_MS`
//! milliseconds after the first buffered id.

use vstd::prelude::*;
use crate::jobs::JobBatchItem;
use crate::time::Timestamp;

verus! {

/// The most submissions that one insert carries.
pub const MAX_BATCH: usize = 200;

/// How long a batch stays open after its first submission arrives.
pub const BATCH_WINDOW_MS: u64 = 5;

/// The most markers that one UPDATE carries.
pub const MARKER_BATCH: usize = 1000;

/// How long a marker waits in the buffer at most before it is flushed.
pub const MARKER_INTERVAL_MS: u64 = 100;

/// The batch flusher's state: the submissions of the open batch, if any.
pub struct BatchCollector<T> {
    pending: Vec<T>,
}

impl<T> View for BatchCollector<T> {
    type V = Seq<T>;

    closed spec fn view(&self) -> Seq<T> {
        self.pending@
    }
}

impl<T> BatchCollector<T> {
    /// An open batch is always below `MAX_BATCH`: a full batch is flushed
    /// at once.
    #[verifier::type_invariant]
    closed spec fn below_capacity(&self) -> bool {
        self.pending@.len() < MAX_BATCH
    }
}

/// What the batch flusher observed.
pub enum BatchEvent<T> {
    /// A submission arrived on the channel.
    Received(T),
    /// The open batch's window elapsed.
    WindowClosed,
    /// The channel is closed and drained.
    ChannelClosed,
}

/// What the batch flusher does next.
pub enum BatchAction<T> {
    /// No batch is open: wait for the next submission.
    AwaitFirst,
    /// A batch was just opened: start its window and wait for more.
    OpenWindow,
    /// The batch is open: keep waiting until its window closes.
    AwaitMore,
    /// Insert this batch and answer its submitters.
    Flush(Vec<T>),
    /// The channel is closed and nothing is left: stop.
    Stop,
}

/// The items that an event brings in.
pub open spec fn batch_event_items<T>(event: BatchEvent<T>) -> Seq<T> {
    match event {
        BatchEvent::Received(x) => seq![x],
        _ => Seq::empty(),
    }
}

/// The items that an action sends to the database.
pub open spec fn batch_action_items<T>(action: BatchAction<T>) -> Seq<T> {
    match action {
        BatchAction::Flush(b) => b@,
        _ => Seq::empty(),
    }
}

impl<T> BatchCollector<T> {
    /// A flusher with no open batch.
    pub fn new() -> (c: BatchCollector<T>)
        ensures
            c@ == Seq::<T>::empty(),
    {
        BatchCollector { pending: Vec::new() }
    }

    /// The number of submissions in the open batch.
    pub fn len(&self) -> (n: usize)
        ensures
            n == self@.len(),
    {
        self.pending.len()
    }

    /// One step of the batch flusher. A submission opens a batch or joins
    /// the open one, and a batch that reaches `MAX_BATCH` is flushed at
    /// once; the end of the window flushes the open batch; a closed channel
    /// flushes what is left and, once nothing is left, stops. A flush takes
    /// the whole open batch. No submission is lost, duplicated or
    /// reordered: what was pending, followed by what arrived, is what was
    /// flushed followed by what is pending now.
    pub fn step(&mut self, event: BatchEvent<T>) -> (action: BatchAction<T>)
        ensures
            old(self)@ + batch_event_items(event) == batch_action_items(action) + final(self)@,
            old(self)@.len() < MAX_BATCH,
            final(self)@.len() < MAX_BATCH,
            action is Flush ==> final(self)@.len() == 0,
            action matches BatchAction::Flush(b) ==> 0 < b@.len() <= MAX_BATCH,
            !(action is Flush) ==> final(self)@ == old(self)@ + batch_event_items(event),
            match event {
                BatchEvent::Received(_) =>
                    if old(self)@.len() + 1 >= MAX_BATCH {
                        action is Flush
                    } else if old(self)@.len() == 0 {
                        action is OpenWindow
                    } else {
                        action is AwaitMore
                    },
                BatchEvent::WindowClosed =>
                    if old(self)@.len() == 0 { action is AwaitFirst } else { action is Flush },
                BatchEvent::ChannelClosed =>
                    if old(self)@.len() == 0 { action is Stop } else { action is Flush },
            },
    {
        proof {
            use_type_invariant(&*self);
        }
        let mut batch: Vec<T> = Vec::new();
        std::mem::swap(&mut batch, &mut self.pending);
        match event {
            BatchEvent::Received(x) => {
                let was_empty = batch.len() == 0;
                batch.push(x);
                if batch.len() >= MAX_BATCH {
                    BatchAction::Flush(batch)
                } else {
                    self.pending = batch;
                    if was_empty {
                        BatchAction::OpenWindow
                    } else {
                        BatchAction::AwaitMore
                    }
                }
            },
            BatchEvent::WindowClosed => {
                if batch.len() == 0 {
                    self.pending = batch;
                    BatchAction::AwaitFirst
                } else {
                    BatchAction::Flush(batch)
                }
            },
            BatchEvent::ChannelClosed => {
                if batch.len() == 0 {
                    self.pending = batch;
                    BatchAction::Stop
                } else {
                    BatchAction::Flush(batch)
                }
            },
        }
    }
}

/// The columns of a batch insert, one entry per item, in batch order: user
/// names, scheduled instants and payloads.
pub fn batch_columns(items: Vec<JobBatchItem>) -> (cols: (Vec<String>, Vec<Timestamp>, Vec<serde_json::Value>))
    ensures
        cols.0@.len() == items@.len(),
        cols.1@.len() == items@.len(),
        cols.2@.len() == items@.len(),
        forall|i: int| 0 <= i < items@.len() ==> {
            &&& cols.0@[i] == #[trigger] items@[i].username
            &&& cols.1@[i] == items@[i].scheduled_for
            &&& cols.2@[i] == items@[i].job
        },
{
    let ghost all = items@;
    let mut users: Vec<String> = Vec::new();
    let mut times: Vec<Timestamp> = Vec::new();
    let mut jobs: Vec<serde_json::Value> = Vec::new();
    for item in it: items.into_iter()
        invariant
            it.seq() == all,
            users@.len() == it.index(),
            times@.len() == it.index(),
            jobs@.len() == it.index(),
            forall|i: int| 0 <= i < it.index() ==> #[trigger] users@[i] == all[i].username,
            forall|i: int| 0 <= i < it.index() ==> #[trigger] times@[i] == all[i].scheduled_for,
            forall|i: int| 0 <= i < it.index() ==> #[trigger] jobs@[i] == all[i].job,
    {
        let JobBatchItem { username, job, scheduled_for } = item;
        users.push(username);
        times.push(scheduled_for);
        jobs.push(job);
    }
    (users, times, jobs)
}

/// The answer each submitter of a batch of `n` items gets, given the ids
/// that the insert returned (`Err` when it failed): item `i` gets the `i`-th
/// returned id; an item past the returned ids gets no answer (its reply
/// handle is dropped); a failed insert answers every item with
/// "insert failed".
pub fn flush_replies(n: usize, inserted: &Result<Vec<i32>, ()>) -> (replies: Vec<Option<Result<i32, String>>>)
    ensures
        replies@.len() == n,
        forall|i: int| 0 <= i < n ==> match inserted {
            Ok(ids) => if i < ids@.len() {
                #[trigger] replies@[i] == Some(Ok::<i32, String>(ids@[i]))
            } else {
                replies@[i] is None
            },
            Err(_) => replies@[i] matches Some(Err(m)) && m@ == "insert failed"@,
        },
{
    let mut replies: Vec<Option<Result<i32, String>>> = Vec::new();
    let mut i: usize = 0;
    while i < n
        invariant
            i <= n,
            replies@.len() == i,
            forall|k: int| 0 <= k < i ==> match inserted {
                Ok(ids) => if k < ids@.len() {
                    #[trigger] replies@[k] == Some(Ok::<i32, String>(ids@[k]))
                } else {
                    replies@[k] is None
                },
                Err(_) => replies@[k] matches Some(Err(m)) && m@ == "insert failed"@,
            },
        decreases n - i,
    {
        let reply = match inserted {
            Ok(ids) => if i < ids.len() { Some(Ok(ids[i])) } else { None },
            Err(_) => Some(Err("insert failed".to_owned())),
        };
        replies.push(reply);
        i = i + 1;
    }
    replies
}

/// The marker flusher's state: the job ids waiting to be marked as indexed.
pub struct MarkerBuffer {
    ids: Vec<i32>,
}

impl View for MarkerBuffer {
    type V = Seq<i32>;

    closed spec fn view(&self) -> Seq<i32> {
        self.ids@
    }
}

/// What the marker flusher observed.
#[derive(Clone, Copy, Debug, PartialEq, Eq, Structural)]
pub enum MarkerEvent {
    /// A job id arrived.
    Marked(i32),
    /// `MARKER_INTERVAL_MS` passed since the first buffered id arrived.
    Deadline,
    /// The channel is closed and drained.
    Closed,
}

/// What the marker flusher does next.
pub enum MarkerAction {
    /// Keep waiting.
    Wait,
    /// The first id was buffered: start its deadline and keep waiting.
    OpenWindow,
    /// Mark these ids as indexed, then keep waiting.
    Flush(Vec<i32>),
    /// Mark these ids as indexed, then stop.
    FlushAndStop(Vec<i32>),
    /// Nothing is left: stop.
    Stop,
}

/// The ids that an action sends to the database.
pub open spec fn marker_action_ids(action: MarkerAction) -> Seq<i32> {
    match action {
        MarkerAction::Flush(b) => b@,
        MarkerAction::FlushAndStop(b) => b@,
        _ => Seq::empty(),
    }
}

/// The ids that an event brings in.
pub open spec fn marker_event_ids(event: MarkerEvent) -> Seq<i32> {
    match event {
        MarkerEvent::Marked(id) => seq![id],
        _ => Seq::empty(),
    }
}

impl MarkerBuffer {
    /// The buffer is always below `MARKER_BATCH`: a full buffer is flushed
    /// at once.
    #[verifier::type_invariant]
    closed spec fn below_capacity(&self) -> bool {
        self.ids@.len() < MARKER_BATCH
    }

    /// An empty buffer.
    pub fn new() -> (b: MarkerBuffer)
        ensures
            b@ == Seq::<i32>::empty(),
    {
        MarkerBuffer { ids: Vec::new() }
    }

    /// One step of the marker flusher: an id joins the buffer, which is
    /// flushed when it reaches `MARKER_BATCH`; the first id into an empty
    /// buffer opens a window, and its deadline flushes what is buffered; a closed channel flushes what is left and stops. A flush
    /// takes the whole buffer. No id is lost, duplicated or reordered.
    pub fn step(&mut self, event: MarkerEvent) -> (action: MarkerAction)
        ensures
            old(self)@ + marker_event_ids(event) == marker_action_ids(action) + final(self)@,
            old(self)@.len() < MARKER_BATCH,
            final(self)@.len() < MARKER_BATCH,
            (action is Flush || action is FlushAndStop) ==> final(self)@.len() == 0,
            (action is Wait || action is OpenWindow || action is Stop) ==> final(self)@ == old(self)@ + marker_event_ids(event),
            match event {
                MarkerEvent::Marked(_) =>
                    if old(self)@.len() + 1 >= MARKER_BATCH {
                        action is Flush
                    } else if old(self)@.len() == 0 {
                        action is OpenWindow
                    } else {
                        action is Wait
                    },
                MarkerEvent::Deadline =>
                    if old(self)@.len() == 0 { action is Wait } else { action is Flush },
                MarkerEvent::Closed =>
                    if old(self)@.len() == 0 { action is Stop } else { action is FlushAndStop },
            },
            action matches MarkerAction::Flush(b) ==> b@.len() > 0,
            action matches MarkerAction::FlushAndStop(b) ==> b@.len() > 0,
    {
        proof {
            use_type_invariant(&*self);
        }
        let mut ids: Vec<i32> = Vec::new();
        std::mem::swap(&mut ids, &mut self.ids);
        match event {
            MarkerEvent::Marked(id) => {
                let was_empty = ids.len() == 0;
                ids.push(id);
                if ids.len() >= MARKER_BATCH {
                    MarkerAction::Flush(ids)
                } else {
                    self.ids = ids;
                    if was_empty {
                        MarkerAction::OpenWindow
                    } else {
                        MarkerAction::Wait
                    }
                }
            },
            MarkerEvent::Deadline => {
                if ids.len() == 0 {
                    self.ids = ids;
                    MarkerAction::Wait
                } else {
                    MarkerAction::Flush(ids)
                }
            },
            MarkerEvent::Closed => {
                if ids.len() == 0 {
                    self.ids = ids;
                    MarkerAction::Stop
                } else {
                    MarkerAction::FlushAndStop(ids)
                }
            },
        }
    }
}

} // verus!
