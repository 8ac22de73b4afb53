use saturn::error::{JobError, JobOutcome};
use saturn::recovery::{ids_to_mark, index_entries, ForgottenJob};
use saturn::scheduler::{due_job_ids, ids_to_remove, keep_parsed};
use saturn::stream::{claimed_jobs, first_ready_job, group_create_result, text_contains, StreamMessage};
use saturn::time::Timestamp;
use saturn::lifecycle::JobStatus;
use saturn::text::parse_i32_text;
use saturn::worker::{
    fenced_write, retry_at, retry_delay_ms, MAX_BACKOFF_MS,
    claim_action, execute_job, execution_outcome, finish_action, renewal_action, verdict, ClaimAction,
    ClaimReply, Execution, FinishAction, JobHandler, JobToExecute, Phase, RenewalAction, Verdict, WorkerCommand,
    WorkerEvent,
};

fn msg(id: &str, job_id: Option<Result<i32, &str>>) -> StreamMessage {
    StreamMessage { id: id.to_string(), job_id: job_id.map(|r| r.map_err(|e| e.to_string())) }
}

#[test]
fn claim_of_unqueued_job_acks_stale_message() {
    assert!(matches!(claim_action(ClaimReply::NotClaimable), ClaimAction::AckStale));
    assert!(matches!(claim_action(ClaimReply::QueryFailed), ClaimAction::GiveUp));
    let job = JobToExecute { id: 3, job_data: serde_json::Value::Null, attempts: 1, max_attempts: 5 };
    match claim_action(ClaimReply::Claimed(job)) {
        ClaimAction::Execute(j) => {
            assert_eq!(j.id, 3);
            assert_eq!(j.attempts, 1);
        }
        _ => panic!("a claimed job must run"),
    }
}

#[test]
fn renewal_cancels_only_when_fence_misses() {
    assert_eq!(renewal_action(Ok(1)), RenewalAction::KeepRunning);
    assert_eq!(renewal_action(Ok(0)), RenewalAction::CancelExecution);
    assert_eq!(renewal_action(Ok(2)), RenewalAction::CancelExecution);
    assert_eq!(renewal_action(Err(())), RenewalAction::KeepRunning);
}

#[test]
fn execution_outcomes() {
    assert_eq!(execution_outcome(Execution::Returned(Ok(()))), JobOutcome::Success);
    assert_eq!(
        execution_outcome(Execution::Returned(Err(JobError::Permanent("bad input".to_string())))),
        JobOutcome::Failed(JobError::Permanent("bad input".to_string()))
    );
    assert_eq!(
        execution_outcome(Execution::TimedOut),
        JobOutcome::Failed(JobError::Retryable("timed out".to_string()))
    );
    assert_eq!(
        execution_outcome(Execution::Panicked("task 7 panicked".to_string())),
        JobOutcome::Failed(JobError::Retryable("panicked: task 7 panicked".to_string()))
    );
    assert_eq!(execution_outcome(Execution::LeaseLost), JobOutcome::LeaseLost);
}

#[test]
fn verdict_completes_success_and_abandons_lost_lease() {
    assert_eq!(verdict(JobOutcome::Success, 1, 3), Verdict::Complete);
    assert_eq!(verdict(JobOutcome::LeaseLost, 1, 3), Verdict::Abandon);
}

#[test]
fn verdict_retries_within_budget() {
    let v = verdict(JobOutcome::Failed(JobError::Retryable("flaky".to_string())), 2, 3);
    assert_eq!(v, Verdict::Retry("flaky".to_string()));
}

#[test]
fn verdict_dead_letters_exhausted_budget() {
    let v = verdict(JobOutcome::Failed(JobError::Retryable("flaky".to_string())), 3, 3);
    assert_eq!(v, Verdict::DeadLetter("flaky".to_string()));
    let v = verdict(JobOutcome::Failed(JobError::Retryable("flaky".to_string())), 4, 3);
    assert_eq!(v, Verdict::DeadLetter("flaky".to_string()));
}

#[test]
fn verdict_dead_letters_permanent_failure_at_once() {
    let v = verdict(JobOutcome::Failed(JobError::Permanent("bad input".to_string())), 1, 5);
    assert_eq!(v, Verdict::DeadLetter("bad input".to_string()));
}

#[test]
fn finish_acks_only_after_one_row() {
    assert_eq!(finish_action(Ok(1)), FinishAction::Ack);
    assert_eq!(finish_action(Ok(0)), FinishAction::Fenced);
    assert_eq!(finish_action(Err(())), FinishAction::WriteFailed);
}

#[test]
fn execute_job_succeeds() {
    assert_eq!(execute_job(&serde_json::Value::Bool(true)), Ok(()));
}

#[test]
fn due_ids_skip_members_that_do_not_parse() {
    let raw = vec!["12".to_string(), "abc".to_string(), "-3".to_string(), "99999999999".to_string(), "7".to_string()];
    assert_eq!(due_job_ids(&raw), vec![12, -3, 7]);
    assert_eq!(keep_parsed(&vec![None, Some(5), None]), vec![5]);
}

#[test]
fn removal_keeps_unannounced_jobs() {
    // 1 and 2 moved to queued; 2 could not be announced; 3 was no longer pending.
    let due = vec![1, 2, 3];
    let moved = vec![(1, true), (2, false)];
    assert_eq!(ids_to_remove(&due, &moved), vec![1, 3]);
}

#[test]
fn removal_when_nothing_moved_drops_all_stale() {
    assert_eq!(ids_to_remove(&vec![4, 5], &vec![]), vec![4, 5]);
    assert_eq!(ids_to_remove(&vec![4, 5], &vec![(5, true), (4, true)]), vec![5, 4]);
    assert_eq!(ids_to_remove(&vec![4, 5], &vec![(5, false), (4, false)]), Vec::<i32>::new());
}

#[test]
fn first_ready_job_takes_first_message() {
    let streams = vec![vec![msg("1-0", Some(Ok(42))), msg("2-0", Some(Ok(43)))]];
    assert_eq!(first_ready_job(&streams), Ok(Some(("1-0".to_string(), 42))));
}

#[test]
fn first_ready_job_without_message_or_field_is_none() {
    assert_eq!(first_ready_job(&vec![]), Ok(None));
    assert_eq!(first_ready_job(&vec![vec![]]), Ok(None));
    assert_eq!(first_ready_job(&vec![vec![msg("1-0", None)]]), Ok(None));
}

#[test]
fn first_ready_job_passes_decode_error() {
    let streams = vec![vec![msg("1-0", Some(Err("not a number")))]];
    assert_eq!(first_ready_job(&streams), Err("not a number".to_string()));
}

#[test]
fn claimed_jobs_skip_fieldless_messages() {
    let ms = vec![msg("1-0", Some(Ok(1))), msg("2-0", None), msg("3-0", Some(Ok(3)))];
    assert_eq!(claimed_jobs(&ms), Ok(vec![("1-0".to_string(), 1), ("3-0".to_string(), 3)]));
}

#[test]
fn claimed_jobs_fail_on_first_bad_field() {
    let ms = vec![msg("1-0", Some(Ok(1))), msg("2-0", Some(Err("bad"))), msg("3-0", Some(Err("worse")))];
    assert_eq!(claimed_jobs(&ms), Err("bad".to_string()));
}

#[test]
fn busygroup_counts_as_created() {
    assert_eq!(group_create_result(Ok(())), Ok(()));
    assert_eq!(
        group_create_result(Err("BUSYGROUP Consumer Group name already exists".to_string())),
        Ok(())
    );
    assert_eq!(group_create_result(Err("connection refused".to_string())), Err("connection refused".to_string()));
}

#[test]
fn text_contains_finds_runs() {
    assert!(text_contains("abc", ""));
    assert!(text_contains("xBUSYGROUPy", "BUSYGROUP"));
    assert!(!text_contains("BUSYGROU", "BUSYGROUP"));
    assert!(!text_contains("", "a"));
}

#[test]
fn forgotten_jobs_are_indexed_by_scheduled_seconds() {
    let jobs = vec![
        ForgottenJob { id: 5, scheduled_for: Timestamp { secs: 100, nanos: 7 } },
        ForgottenJob { id: 9, scheduled_for: Timestamp { secs: 50, nanos: 0 } },
    ];
    assert_eq!(index_entries(&jobs), vec![(5, 100), (9, 50)]);
}

fn claimed(attempts: i32, max_attempts: i32) -> ClaimReply {
    ClaimReply::Claimed(JobToExecute { id: 9, job_data: serde_json::Value::Null, attempts, max_attempts })
}

#[test]
fn handler_runs_writes_and_acks() {
    let mut h = JobHandler::new();
    assert!(matches!(h.step(WorkerEvent::Claimed(claimed(1, 3))), WorkerCommand::Execute(_)));
    assert_eq!(h.phase(), Phase::Running { attempts: 1, max_attempts: 3 });
    match h.step(WorkerEvent::Ran(Execution::Returned(Ok(())))) {
        WorkerCommand::Write(v) => assert_eq!(v, Verdict::Complete),
        _ => panic!("a finished job must be written"),
    }
    assert_eq!(h.phase(), Phase::Writing);
    assert!(matches!(h.step(WorkerEvent::Wrote(Ok(1))), WorkerCommand::Ack));
    assert_eq!(h.phase(), Phase::Done);
}

#[test]
fn handler_leaves_message_when_write_is_fenced() {
    let mut h = JobHandler::new();
    h.step(WorkerEvent::Claimed(claimed(3, 3)));
    match h.step(WorkerEvent::Ran(Execution::TimedOut)) {
        WorkerCommand::Write(v) => assert_eq!(v, Verdict::DeadLetter("timed out".to_string())),
        _ => panic!("an exhausted job must be dead-lettered"),
    }
    assert!(matches!(h.step(WorkerEvent::Wrote(Ok(0))), WorkerCommand::Leave));
    assert!(matches!(h.step(WorkerEvent::Wrote(Ok(1))), WorkerCommand::Leave));
}

#[test]
fn handler_walks_away_on_lost_lease() {
    let mut h = JobHandler::new();
    h.step(WorkerEvent::Claimed(claimed(1, 3)));
    assert!(matches!(h.step(WorkerEvent::Ran(Execution::LeaseLost)), WorkerCommand::Leave));
    assert_eq!(h.phase(), Phase::Done);
}

#[test]
fn handler_acks_stale_message_without_running() {
    let mut h = JobHandler::new();
    assert!(matches!(h.step(WorkerEvent::Claimed(ClaimReply::NotClaimable)), WorkerCommand::Ack));
    assert_eq!(h.phase(), Phase::Done);
    let mut h = JobHandler::new();
    assert!(matches!(h.step(WorkerEvent::Claimed(ClaimReply::QueryFailed)), WorkerCommand::Leave));
}

#[test]
fn handler_ignores_out_of_order_events() {
    let mut h = JobHandler::new();
    assert!(matches!(h.step(WorkerEvent::Wrote(Ok(1))), WorkerCommand::Leave));
    assert_eq!(h.phase(), Phase::Claiming);
}

#[test]
fn parse_i32_text_matches_std() {
    let cases = [
        "0", "7", "-7", "+7", "-0", "+0", "007", "2147483647", "2147483648", "-2147483648", "-2147483649",
        "99999999999", "", "-", "+", "+-1", "--1", " 1", "1 ", "1a", "a1", "١", "12345678901234567890", "-00",
    ];
    for c in cases {
        assert_eq!(parse_i32_text(c), c.parse::<i32>().ok(), "text {:?}", c);
    }
}

#[test]
fn retry_delay_doubles_with_jitter_and_caps_at_five_minutes() {
    assert_eq!(retry_delay_ms(0, 500), 5000);
    assert_eq!(retry_delay_ms(1, 0), 5000);
    assert_eq!(retry_delay_ms(1, 500), 10000);
    assert_eq!(retry_delay_ms(1, 999), 14990);
    assert_eq!(retry_delay_ms(5, 500), 160000);
    assert_eq!(retry_delay_ms(6, 0), 160000);
    assert_eq!(retry_delay_ms(6, 500), 300000);
    assert_eq!(retry_delay_ms(6, 999), MAX_BACKOFF_MS);
    assert_eq!(retry_delay_ms(i32::MAX, 0), 300000);
    assert_eq!(retry_delay_ms(-1, 500), 2500);
    assert_eq!(retry_delay_ms(-12, 0), 1);
    assert_eq!(retry_delay_ms(-13, 999), 1);
    assert_eq!(retry_delay_ms(i32::MIN, 0), 1);
    for a in -20..40 {
        for j in [0u32, 1, 250, 500, 998, 999] {
            let d = retry_delay_ms(a, j);
            assert!(1 <= d && d <= 300_000, "attempts {a} jitter {j}: {d}");
        }
    }
}

#[test]
fn retry_at_adds_the_delay() {
    let t = retry_at(Timestamp { secs: 100, nanos: 999_000_000 }, 1, 500);
    assert_eq!(t, Timestamp { secs: 110, nanos: 999_000_000 });
    let t = retry_at(Timestamp { secs: 100, nanos: 500_000_000 }, 1, 999);
    assert_eq!(t, Timestamp { secs: 115, nanos: 490_000_000 });
}

#[test]
fn fenced_writes_for_each_verdict() {
    let finish = Timestamp { secs: 1000, nanos: 0 };
    assert!(fenced_write(Verdict::Abandon, 1, 0, finish).is_none());
    let w = fenced_write(Verdict::Complete, 1, 0, finish).unwrap();
    assert_eq!(w.status, JobStatus::Complete);
    assert_eq!(w.status.as_str(), "complete");
    assert_eq!(w.last_error, None);
    assert!(!w.release_claim);
    assert_eq!(w.retry_at, None);
    let w = fenced_write(Verdict::DeadLetter("boom".to_string()), 3, 0, finish).unwrap();
    assert_eq!(w.status.as_str(), "failed");
    assert_eq!(w.last_error, Some("boom".to_string()));
    assert!(w.release_claim);
    assert_eq!(w.retry_at, None);
    let w = fenced_write(Verdict::Retry("flaky".to_string()), 2, 500, finish).unwrap();
    assert_eq!(w.status.as_str(), "pending");
    assert_eq!(w.last_error, Some("flaky".to_string()));
    assert!(w.release_claim);
    assert_eq!(w.retry_at, Some(Timestamp { secs: 1020, nanos: 0 }));
}

#[test]
fn forgotten_jobs_are_marked_only_after_indexing() {
    assert_eq!(ids_to_mark(&vec![(5, true), (6, false), (7, true)]), vec![5, 7]);
    assert_eq!(ids_to_mark(&vec![(6, false)]), Vec::<i32>::new());
}

#[test]
fn handler_dead_letters_exhausted_retryable_failure() {
    let mut h = JobHandler::new();
    h.step(WorkerEvent::Claimed(claimed(3, 3)));
    match h.step(WorkerEvent::Ran(Execution::Returned(Err(JobError::Retryable("boom".to_string()))))) {
        WorkerCommand::Write(v) => assert_eq!(v, Verdict::DeadLetter("boom".to_string())),
        _ => panic!("an exhausted job must be dead-lettered"),
    }
}

#[test]
fn handler_retries_panics_within_budget() {
    let mut h = JobHandler::new();
    h.step(WorkerEvent::Claimed(claimed(1, 3)));
    match h.step(WorkerEvent::Ran(Execution::Panicked("oops".to_string()))) {
        WorkerCommand::Write(v) => assert_eq!(v, Verdict::Retry("panicked: oops".to_string())),
        _ => panic!("a panic within budget must be retried"),
    }
}

#[test]
fn handler_dead_letters_permanent_failure() {
    let mut h = JobHandler::new();
    h.step(WorkerEvent::Claimed(claimed(1, 5)));
    match h.step(WorkerEvent::Ran(Execution::Returned(Err(JobError::Permanent("bad".to_string()))))) {
        WorkerCommand::Write(v) => assert_eq!(v, Verdict::DeadLetter("bad".to_string())),
        _ => panic!("a permanent failure must be dead-lettered"),
    }
}

#[test]
fn lease_runs_ten_seconds() {
    assert_eq!(
        saturn::worker::lease_expiry(Timestamp { secs: 50, nanos: 7 }),
        Timestamp { secs: 60, nanos: 7 }
    );
}
