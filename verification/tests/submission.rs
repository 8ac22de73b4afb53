use saturn::batch::{
    batch_columns, flush_replies, BatchAction, BatchCollector, BatchEvent, MarkerAction, MarkerBuffer,
    MarkerEvent, MARKER_BATCH, MAX_BATCH,
};
use saturn::jobs::{
    index_reply, inserted_job_id, prepare_job, redis_score, InsertReply, JobBatchItem, JobRequest, Rejection,
    User,
};
use saturn::time::{parse_timestamp, Timestamp};

fn payload(task: &str) -> serde_json::Value {
    serde_json::Value::String(task.to_string())
}

fn request(name: &str, scheduled_for: Option<&str>) -> JobRequest {
    JobRequest {
        user: User { username: name.to_string() },
        job: payload("send_email"),
        scheduled_for: scheduled_for.map(|s| s.to_string()),
    }
}

#[test]
fn parse_timestamp_reads_utc() {
    let t = parse_timestamp("2026-07-20T12:00:00Z").unwrap();
    assert_eq!(t, Timestamp { secs: 1784548800, nanos: 0 });
}

#[test]
fn parse_timestamp_converts_offsets_to_utc() {
    let t = parse_timestamp("2026-07-20T12:00:00+02:00").unwrap();
    assert_eq!(t.secs, 1784541600);
    let t = parse_timestamp("1996-12-19T16:39:57.5-08:00").unwrap();
    assert_eq!(t, Timestamp { secs: 851042397, nanos: 500_000_000 });
}

#[test]
fn parse_timestamp_refuses_other_text() {
    assert_eq!(parse_timestamp("tomorrow"), None);
    assert_eq!(parse_timestamp("2026-07-20 12:00"), None);
}

#[test]
fn prepare_job_uses_requested_instant() {
    let now = Timestamp { secs: 10, nanos: 0 };
    let item = prepare_job(request("sohan", Some("2026-07-20T12:00:00Z")), now).ok().unwrap();
    assert_eq!(item.username, "sohan");
    assert_eq!(item.job, payload("send_email"));
    assert_eq!(item.scheduled_for, Timestamp { secs: 1784548800, nanos: 0 });
}

#[test]
fn prepare_job_defaults_to_now() {
    let now = Timestamp { secs: 1700000000, nanos: 42 };
    let item = prepare_job(request("sohan", None), now).ok().unwrap();
    assert_eq!(item.scheduled_for, now);
}

#[test]
fn prepare_job_rejects_bad_instant_with_400() {
    let now = Timestamp { secs: 0, nanos: 0 };
    let r = prepare_job(request("sohan", Some("not a date")), now);
    match r {
        Err(rej) => {
            assert_eq!(rej, Rejection::BadRequest);
            assert_eq!(rej.status_code(), 400);
        }
        Ok(_) => panic!("a malformed instant must be refused"),
    }
}

#[test]
fn insert_replies_map_to_statuses() {
    assert_eq!(inserted_job_id(InsertReply::Inserted(7)), Ok(7));
    assert_eq!(inserted_job_id(InsertReply::ChannelClosed), Err(Rejection::Unavailable));
    assert_eq!(Rejection::Unavailable.status_code(), 503);
    assert_eq!(inserted_job_id(InsertReply::Dropped), Err(Rejection::Internal));
    assert_eq!(inserted_job_id(InsertReply::Failed("insert failed".to_string())), Err(Rejection::Internal));
    assert_eq!(Rejection::Internal.status_code(), 500);
}

#[test]
fn index_reply_reports_success_only_when_indexed() {
    let ok = index_reply(41, true).ok().unwrap();
    assert_eq!(ok.job_id(), 41);
    assert_eq!(ok.message(), "Job Created Successfully");
    assert!(matches!(index_reply(41, false), Err(Rejection::Internal)));
}

#[test]
fn redis_score_is_whole_seconds() {
    assert_eq!(redis_score(Timestamp { secs: 1784548800, nanos: 999_999_999 }), 1784548800);
    assert_eq!(redis_score(Timestamp { secs: -5, nanos: 1 }), -5);
}

#[test]
fn batch_opens_collects_and_flushes_on_window() {
    let mut c: BatchCollector<u32> = BatchCollector::new();
    assert!(matches!(c.step(BatchEvent::WindowClosed), BatchAction::AwaitFirst));
    assert!(matches!(c.step(BatchEvent::Received(1)), BatchAction::OpenWindow));
    assert!(matches!(c.step(BatchEvent::Received(2)), BatchAction::AwaitMore));
    assert!(matches!(c.step(BatchEvent::Received(3)), BatchAction::AwaitMore));
    match c.step(BatchEvent::WindowClosed) {
        BatchAction::Flush(b) => assert_eq!(b, vec![1, 2, 3]),
        _ => panic!("the window must flush the open batch"),
    }
    assert_eq!(c.len(), 0);
}

#[test]
fn batch_flushes_at_two_hundred() {
    let mut c: BatchCollector<usize> = BatchCollector::new();
    for i in 0..MAX_BATCH - 1 {
        let a = c.step(BatchEvent::Received(i));
        assert!(!matches!(a, BatchAction::Flush(_)));
    }
    assert_eq!(c.len(), 199);
    match c.step(BatchEvent::Received(199)) {
        BatchAction::Flush(b) => {
            assert_eq!(b.len(), 200);
            assert_eq!(b, (0..200).collect::<Vec<usize>>());
        }
        _ => panic!("the 200th item must flush"),
    }
    assert_eq!(c.len(), 0);
}

#[test]
fn batch_drains_then_stops_on_close() {
    let mut c: BatchCollector<&str> = BatchCollector::new();
    c.step(BatchEvent::Received("a"));
    match c.step(BatchEvent::ChannelClosed) {
        BatchAction::Flush(b) => assert_eq!(b, vec!["a"]),
        _ => panic!("close must flush what is left"),
    }
    assert!(matches!(c.step(BatchEvent::ChannelClosed), BatchAction::Stop));
}

#[test]
fn batch_columns_keep_item_order() {
    let items = vec![
        JobBatchItem { username: "a".to_string(), job: payload("x"), scheduled_for: Timestamp { secs: 1, nanos: 0 } },
        JobBatchItem { username: "b".to_string(), job: payload("y"), scheduled_for: Timestamp { secs: 2, nanos: 5 } },
    ];
    let (users, times, jobs) = batch_columns(items);
    assert_eq!(users, vec!["a".to_string(), "b".to_string()]);
    assert_eq!(times, vec![Timestamp { secs: 1, nanos: 0 }, Timestamp { secs: 2, nanos: 5 }]);
    assert_eq!(jobs, vec![payload("x"), payload("y")]);
}

#[test]
fn flush_replies_give_each_item_its_own_id() {
    let r = flush_replies(3, &Ok(vec![10, 11, 12]));
    assert_eq!(r, vec![Some(Ok(10)), Some(Ok(11)), Some(Ok(12))]);
}

#[test]
fn flush_replies_leave_unmatched_items_unanswered() {
    let r = flush_replies(3, &Ok(vec![10]));
    assert_eq!(r, vec![Some(Ok(10)), None, None]);
}

#[test]
fn flush_replies_report_failed_insert_to_all() {
    let r = flush_replies(2, &Err(()));
    assert_eq!(r, vec![Some(Err("insert failed".to_string())), Some(Err("insert failed".to_string()))]);
    assert_eq!(flush_replies(0, &Err(())), vec![]);
}

#[test]
fn markers_open_window_then_flush_at_deadline() {
    let mut m = MarkerBuffer::new();
    assert!(matches!(m.step(MarkerEvent::Deadline), MarkerAction::Wait));
    assert!(matches!(m.step(MarkerEvent::Marked(4)), MarkerAction::OpenWindow));
    assert!(matches!(m.step(MarkerEvent::Marked(5)), MarkerAction::Wait));
    match m.step(MarkerEvent::Deadline) {
        MarkerAction::Flush(ids) => assert_eq!(ids, vec![4, 5]),
        _ => panic!("the deadline must flush"),
    }
    assert!(matches!(m.step(MarkerEvent::Marked(6)), MarkerAction::OpenWindow));
    match m.step(MarkerEvent::Closed) {
        MarkerAction::FlushAndStop(ids) => assert_eq!(ids, vec![6]),
        _ => panic!("close must flush what is left"),
    }
    let mut m = MarkerBuffer::new();
    assert!(matches!(m.step(MarkerEvent::Closed), MarkerAction::Stop));
}

#[test]
fn markers_flush_at_one_thousand() {
    let mut m = MarkerBuffer::new();
    for i in 0..(MARKER_BATCH as i32 - 1) {
        let a = m.step(MarkerEvent::Marked(i));
        if i == 0 {
            assert!(matches!(a, MarkerAction::OpenWindow));
        } else {
            assert!(matches!(a, MarkerAction::Wait));
        }
    }
    match m.step(MarkerEvent::Marked(999)) {
        MarkerAction::Flush(ids) => assert_eq!(ids, (0..1000).collect::<Vec<i32>>()),
        _ => panic!("the 1000th id must flush"),
    }
}

#[test]
fn markers_flush_remainder_on_close() {
    let mut m = MarkerBuffer::new();
    m.step(MarkerEvent::Marked(8));
    match m.step(MarkerEvent::Closed) {
        MarkerAction::FlushAndStop(ids) => assert_eq!(ids, vec![8]),
        _ => panic!("close must flush what is left"),
    }
}
