use apalis_redis::config::Config;
use apalis_redis::duration::Duration;
use apalis_redis::decode::{RespValue, DecodeError};
use apalis_redis::error::Error;
use apalis_redis::factory::{available_queue, parse_channel_info, split_text};
use apalis_redis::persist::{
    check_reenqueued, handle_events_calls, heartbeat_calls, register_calls, split_events,
    PersistEvent,
};
use apalis_redis::queries::{current_timestamp, timestamp_from_elapsed};
use apalis_redis::queries::fetch_by_id::{fetch_by_id_call, fetch_by_id_reply};
use apalis_redis::queries::fetch_next::fetch_next_call;
use apalis_redis::queries::handle_results::{handle_results_call, AckPayload};
use apalis_redis::queries::list_queues::{queue_names, queue_registry_key, replace_text};
use apalis_redis::queries::metrics::queues_key;
use apalis_redis::queries::list_tasks::{list_tasks_call, list_tasks_reply, TaskFilter};
use apalis_redis::queries::push_tasks::{push_tasks_call, PushTask};
use apalis_redis::queries::reenqueue::{reenqueue_orphaned_call, WorkerFilter};
use apalis_redis::queries::task_lease::{acquire_leases_call, release_leases_call, renew_leases_call};
use apalis_redis::queries::wait_for::{
    reported_attempt, status_of_reply, stored_result, task_meta_key, PendingIds,
};
use apalis_redis::script::{Script, ScriptArg, ScriptCall};
use apalis_redis::status::TaskStatus;
use apalis_redis::text::{parse_u32, parse_u64};

fn text(a: &ScriptArg) -> String {
    match a {
        ScriptArg::Text(s) => s.clone(),
        other => panic!("not text: {other:?}"),
    }
}

fn int_arg(a: &ScriptArg) -> u64 {
    match a {
        ScriptArg::Int(n) => *n,
        other => panic!("not an integer: {other:?}"),
    }
}

fn flag(a: &ScriptArg) -> bool {
    match a {
        ScriptArg::Flag(b) => *b,
        other => panic!("not a flag: {other:?}"),
    }
}

fn config() -> Config {
    Config::default().queue("q")
}

#[test]
fn fetch_next_sends_the_batch_size_and_the_worker() {
    let c = fetch_next_call(&config().batch_size(7), "w", 100);
    assert_eq!(c.script, Script::FetchNext);
    assert_eq!(
        c.keys,
        vec!["q:workers", "q:active", "q:inflight", "q:data", "q:signal", "q:meta", "q:scheduled"]
    );
    assert_eq!(int_arg(&c.args[0]), 100);
    assert_eq!(int_arg(&c.args[1]), 7);
    assert_eq!(text(&c.args[2]), "q:inflight:w");
}

#[test]
fn fetch_by_id_reply_cases() {
    let c = fetch_by_id_call(&config(), "abc");
    assert_eq!(c.keys, vec!["q:data", "q:meta"]);
    assert_eq!(text(&c.args[0]), "abc");
    assert!(matches!(fetch_by_id_reply(RespValue::Other), Ok(None)));
    match fetch_by_id_reply(RespValue::ServerError("boom".to_owned())) {
        Err(Error::Server(m)) => assert_eq!(m, "boom"),
        other => panic!("unexpected {other:?}"),
    }
    let empty = RespValue::Array(vec![RespValue::Array(vec![]), RespValue::Array(vec![])]);
    assert!(matches!(fetch_by_id_reply(empty), Ok(None)));
    assert!(matches!(
        fetch_by_id_reply(RespValue::Array(vec![])),
        Err(Error::Decode(DecodeError::MissingElements))
    ));
    let one = RespValue::Array(vec![
        RespValue::Array(vec![RespValue::BulkString(b"x".to_vec())]),
        RespValue::Array(vec![RespValue::Array(vec![
            RespValue::BulkString(b"9".to_vec()),
            RespValue::BulkString(b"attempts".to_vec()),
            RespValue::BulkString(b"1".to_vec()),
            RespValue::BulkString(b"max_attempts".to_vec()),
            RespValue::BulkString(b"2".to_vec()),
            RespValue::BulkString(b"status".to_vec()),
            RespValue::BulkString(b"Failed".to_vec()),
        ])]),
    ]);
    let t = fetch_by_id_reply(one).unwrap().unwrap();
    assert_eq!(t.status, TaskStatus::Failed);
    assert_eq!(t.data, b"x".to_vec());
}

#[test]
fn list_tasks_defaults_the_page_size() {
    let c = list_tasks_call(&config(), &TaskFilter { status: None, page: 2, page_size: None });
    assert_eq!(c.keys, vec!["q:data", "q:meta", "q"]);
    assert_eq!(text(&c.args[0]), "");
    assert_eq!(int_arg(&c.args[1]), 2);
    assert_eq!(int_arg(&c.args[2]), 10);
    let c = list_tasks_call(
        &config(),
        &TaskFilter { status: Some(TaskStatus::Done), page: 1, page_size: Some(5) },
    );
    assert_eq!(text(&c.args[0]), "Done");
    assert_eq!(int_arg(&c.args[2]), 5);
    assert_eq!(list_tasks_reply(RespValue::Other).unwrap().len(), 0);
}

#[test]
fn handle_results_sends_each_result() {
    assert!(handle_results_call(&config(), "w", &vec![], 5).is_none());
    let p = AckPayload {
        task_id: "t1".to_owned(),
        result: "{\"Ok\":1}".to_owned(),
        status: TaskStatus::Done,
        attempt: 3,
    };
    let c = handle_results_call(&config(), "w", &vec![p], 5).unwrap();
    assert_eq!(c.keys, vec!["q:inflight:w", "q:done", "q:dead", "q:scheduled", "q:meta"]);
    assert!(flag(&c.args[0]));
    assert_eq!(text(&c.args[1]), "t1");
    assert_eq!(int_arg(&c.args[2]), 5);
    assert_eq!(text(&c.args[3]), "{\"Ok\":1}");
    assert_eq!(text(&c.args[4]), "Done");
    assert_eq!(int_arg(&c.args[5]), 3);
    assert_eq!(c.args.len(), 6);
}

#[test]
fn leases() {
    let ids = vec!["a".to_owned(), "b".to_owned()];
    assert!(acquire_leases_call(&config(), "w", &vec![], 1).is_none());
    let c = acquire_leases_call(&config(), "w", &ids, 1).unwrap();
    assert_eq!(c.keys, vec!["q:inflight:w", "q:workers", "q:meta", "q:active"]);
    assert_eq!(text(&c.args[0]), "w");
    assert_eq!(text(&c.args[3]), "a");
    assert_eq!(text(&c.args[4]), "b");
    assert!(renew_leases_call(&config(), "w", &vec![], 1).is_none());
    let c = renew_leases_call(&config(), "w", &ids, 1).unwrap();
    assert_eq!(c.script, Script::RenewLeases);
    assert_eq!(c.args.len(), 5);
    let c = release_leases_call(&config().emit_events(false), "w", &ids);
    assert_eq!(c.keys, vec!["q:inflight:w", "q:active", "q:signal", "q:workers", "q:meta"]);
    assert!(!flag(&c.args[0]));
    assert_eq!(c.args.len(), 3);
}

#[test]
fn reenqueue_windows() {
    let c = reenqueue_orphaned_call(&config(), &WorkerFilter::Only("w".to_owned()), 1000);
    assert_eq!(c.keys, vec!["q:workers", "q:active", "q:signal"]);
    assert_eq!(int_arg(&c.args[0]), 970);
    assert_eq!(text(&c.args[1]), "w");
    let c = reenqueue_orphaned_call(&config(), &WorkerFilter::AllExcept("w".to_owned()), 1000);
    assert_eq!(int_arg(&c.args[0]), 940);
    assert_eq!(c.args.len(), 1);
}

#[test]
fn reenqueue_mismatch_only_with_locking() {
    match check_reenqueued(true, 2, 3) {
        Err(Error::ReenqueueMismatch { queued, abandoned }) => {
            assert_eq!(queued, 3);
            assert_eq!(abandoned, 2);
        }
        other => panic!("unexpected {other:?}"),
    }
    assert!(matches!(check_reenqueued(true, 3, 3), Ok(3)));
    assert!(matches!(check_reenqueued(false, 2, 3), Ok(2)));
}

#[test]
fn heartbeat_and_registration_plans() {
    let calls: Vec<ScriptCall> = heartbeat_calls(&config(), "w", &vec!["t".to_owned()], 1000);
    let scripts: Vec<Script> = calls.iter().map(|c| c.script).collect();
    assert_eq!(scripts, vec![Script::KeepAlive, Script::RenewLeases, Script::ReenqueueOrphaned]);
    let calls = heartbeat_calls(&config().lock_tasks(false), "w", &vec!["t".to_owned()], 1000);
    assert_eq!(calls.len(), 2);
    let calls = heartbeat_calls(&config(), "w", &vec![], 1000);
    assert_eq!(calls.len(), 2);
    let calls = register_calls(&config(), "w", "svc", 1000);
    assert_eq!(calls[0].script, Script::ReenqueueOrphaned);
    assert_eq!(calls[1].script, Script::RegisterWorker);
    assert_eq!(int_arg(&calls[1].args[2]), 60);
    assert_eq!(text(&calls[1].args[3]), "RedisStorage");
    assert_eq!(text(&calls[1].args[4]), "svc");
}

#[test]
fn events_split_by_kind() {
    let p = AckPayload {
        task_id: "t2".to_owned(),
        result: "null".to_owned(),
        status: TaskStatus::Failed,
        attempt: 1,
    };
    let events = vec![
        PersistEvent::Lock("t1".to_owned()),
        PersistEvent::Other,
        PersistEvent::Complete(p),
        PersistEvent::Lock("t3".to_owned()),
    ];
    let b = split_events(&events);
    assert_eq!(b.lock_ids, vec!["t1", "t3"]);
    assert_eq!(b.acks.len(), 1);
    assert_eq!(b.acks[0].task_id, "t2");
}

#[test]
fn push_keeps_ids_and_schedules_no_earlier_than_now() {
    let with_id = PushTask {
        task_id: Some("id-1".to_owned()),
        args: vec![1, 2],
        attempt: 0,
        max_attempts: None,
        metadata: "{}".to_owned(),
        run_at: Some(50),
        idempotency_key: None,
    };
    let later = PushTask {
        task_id: None,
        args: vec![],
        attempt: 2,
        max_attempts: Some(4),
        metadata: "{}".to_owned(),
        run_at: Some(500),
        idempotency_key: Some("k".to_owned()),
    };
    let c = push_tasks_call(&config(), &vec![with_id, later], 100);
    assert_eq!(
        c.keys,
        vec!["q:data", "q:active", "q:signal", "q:meta", "q:scheduled", "q:idempotency"]
    );
    assert_eq!(c.args.len(), 15);
    assert_eq!(int_arg(&c.args[0]), 0);
    assert_eq!(text(&c.args[1]), "id-1");
    assert!(matches!(&c.args[2], ScriptArg::Bytes(b) if *b == vec![1, 2]));
    assert_eq!(int_arg(&c.args[4]), 25);
    assert_eq!(int_arg(&c.args[6]), 100);
    assert_eq!(text(&c.args[7]), "");
    let fresh = text(&c.args[8]);
    assert_eq!(fresh.len(), 26);
    assert!(fresh.chars().all(|ch| "0123456789ABCDEFGHJKMNPQRSTVWXYZ".contains(ch)));
    assert!(fresh.chars().next().unwrap() <= '7');
    assert_eq!(int_arg(&c.args[10]), 2);
    assert_eq!(int_arg(&c.args[11]), 4);
    assert_eq!(int_arg(&c.args[13]), 500);
    assert_eq!(text(&c.args[14]), "k");
}

#[test]
fn push_sends_the_idempotency_ttl() {
    let task = PushTask {
        task_id: Some("id".to_owned()),
        args: vec![],
        attempt: 0,
        max_attempts: None,
        metadata: "{}".to_owned(),
        run_at: None,
        idempotency_key: Some("k".to_owned()),
    };
    let tasks = vec![task];
    let c = push_tasks_call(&config().idempotency_ttl(Some(Duration::from_secs(3600))), &tasks, 1);
    assert_eq!(int_arg(&c.args[0]), 3600);
    let c = push_tasks_call(&config().idempotency_ttl(Some(Duration::from_millis(1500))), &tasks, 1);
    assert_eq!(int_arg(&c.args[0]), 2);
    let c = push_tasks_call(&config().idempotency_ttl(Some(Duration::from_secs(0))), &tasks, 1);
    assert_eq!(int_arg(&c.args[0]), 1);
    let c = push_tasks_call(&config().idempotency_ttl(Some(Duration::from_millis(1))), &tasks, 1);
    assert_eq!(int_arg(&c.args[0]), 1);
    let c = push_tasks_call(&config().idempotency_ttl(None), &tasks, 1);
    assert_eq!(int_arg(&c.args[0]), 0);
    assert_eq!(c.args.len(), 8);
}

#[test]
fn pending_ids_shrink_as_tasks_finish() {
    let mut p = PendingIds::new(&vec!["a".to_owned(), "b".to_owned(), "a".to_owned()]);
    assert_eq!(p.ids().len(), 2);
    assert!(p.record(&vec![]));
    assert_eq!(p.ids().len(), 2);
    assert!(!p.record(&vec!["a".to_owned(), "z".to_owned()]));
    assert_eq!(p.ids(), vec!["b".to_owned()]);
    assert!(!p.is_empty());
    p.record(&vec!["b".to_owned()]);
    assert!(p.is_empty());
}

#[test]
fn stored_states() {
    assert!(matches!(status_of_reply(None), Ok(None)));
    assert!(matches!(status_of_reply(Some("Killed".to_owned())), Ok(Some(TaskStatus::Killed))));
    assert!(matches!(
        status_of_reply(Some("nope".to_owned())),
        Err(Error::Decode(DecodeError::UnknownStatus(_)))
    ));
    assert_eq!(reported_attempt(None), 1);
    assert_eq!(reported_attempt(Some(4)), 4);
    assert_eq!(task_meta_key(&config(), "t9"), "q:meta:t9");
    for s in [
        TaskStatus::Pending,
        TaskStatus::Queued,
        TaskStatus::Running,
        TaskStatus::Done,
        TaskStatus::Failed,
        TaskStatus::Killed,
    ] {
        assert!(matches!(status_of_reply(Some(s.name().to_owned())), Ok(Some(t)) if t == s));
    }
    assert!(status_of_reply(Some("pending".to_owned())).is_err());
}

#[test]
fn numbers() {
    assert_eq!(parse_u32("0"), Some(0));
    assert_eq!(parse_u32("+42"), Some(42));
    assert_eq!(parse_u32("4294967295"), Some(u32::MAX));
    assert_eq!(parse_u32("4294967296"), None);
    assert_eq!(parse_u32(""), None);
    assert_eq!(parse_u32("+"), None);
    assert_eq!(parse_u32("1 "), None);
    assert_eq!(parse_u64("18446744073709551615"), Some(u64::MAX));
    assert_eq!(parse_u64("18446744073709551616"), None);
    assert_eq!(parse_u64("007"), Some(7));
}

#[test]
fn channels() {
    let parts = split_text("a::b:", ':');
    assert_eq!(parts, vec!["a", "", "b", ""]);
    let push = |s: &str| vec![RespValue::Other, RespValue::BulkString(s.as_bytes().to_vec())];
    let info = parse_channel_info(&push("tasks:emails:queue:available")).unwrap();
    assert_eq!(info, ("emails".to_owned(), "queue".to_owned(), "available".to_owned()));
    assert!(parse_channel_info(&push("tasks:emails:queue")).is_none());
    assert!(parse_channel_info(&vec![RespValue::Other]).is_none());
    assert_eq!(available_queue(&push("tasks:emails:queue:available:x")), Some("emails".to_owned()));
    assert_eq!(available_queue(&push("tasks:emails:queue:done")), None);
}

#[test]
fn queue_names_drop_the_workers_suffix() {
    let names = queue_names(&vec!["a:workers".to_owned(), "b".to_owned(), "c:workers:workers".to_owned()]);
    assert_eq!(names, vec!["a", "b", "c"]);
    assert_eq!(queue_names(&vec!["x:workersy".to_owned()]), vec!["xy"]);
    assert_eq!(replace_text("aaa", "aa", "b"), "ba");
    assert_eq!(replace_text("abc", "abcd", "x"), "abc");
    assert_eq!(replace_text("a-b-c", "-", "::"), "a::b::c");
    assert_eq!(replace_text("été:workers", ":workers", ""), "été");
}

#[test]
fn clock_reads_after_the_epoch() {
    assert!(current_timestamp() > 1_600_000_000);
}

#[test]
fn timestamps_from_elapsed_time() {
    assert_eq!(timestamp_from_elapsed(Some((1_700_000_000, 999_999_999))), 1_700_000_000);
    assert_eq!(timestamp_from_elapsed(None), 0);
}

#[test]
fn event_plans_lock_before_recording_results() {
    let p = AckPayload {
        task_id: "t2".to_owned(),
        result: "null".to_owned(),
        status: TaskStatus::Done,
        attempt: 1,
    };
    let events = vec![
        PersistEvent::Complete(p),
        PersistEvent::Lock("t1".to_owned()),
    ];
    let calls = handle_events_calls(&config(), "w", &events, 9);
    let scripts: Vec<Script> = calls.iter().map(|c| c.script).collect();
    assert_eq!(scripts, vec![Script::AcquireLeases, Script::HandleResults]);
    assert_eq!(text(&calls[0].args[3]), "t1");
    assert_eq!(text(&calls[1].args[1]), "t2");
    assert!(handle_events_calls(&config(), "w", &vec![PersistEvent::Other], 9).is_empty());
}

#[test]
fn stored_results_need_a_state_and_a_result() {
    let r = stored_result(Some(TaskStatus::Done), Some(b"1".to_vec()), None).unwrap();
    assert_eq!(r.status, TaskStatus::Done);
    assert_eq!(r.data, b"1".to_vec());
    assert_eq!(r.attempt, 1);
    let r = stored_result(Some(TaskStatus::Failed), Some(vec![]), Some(3)).unwrap();
    assert_eq!(r.attempt, 3);
    assert!(stored_result(Some(TaskStatus::Done), None, Some(3)).is_none());
    assert!(stored_result(None, Some(b"1".to_vec()), Some(3)).is_none());
}

#[test]
fn registry_keys() {
    assert_eq!(queue_registry_key(), "core:apalis:queues:list");
    assert_eq!(queues_key(), "core:apalis:queues");
}
