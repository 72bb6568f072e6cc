use apalis_redis::decode::{deserialize_with_meta, DecodeError, Field, RespValue};
use apalis_redis::status::TaskStatus;

fn bulk(s: &str) -> RespValue {
    RespValue::BulkString(s.as_bytes().to_vec())
}

fn record(id: &str, pairs: &[(&str, &str)]) -> RespValue {
    let mut fields = vec![bulk(id)];
    for (k, v) in pairs {
        fields.push(bulk(k));
        fields.push(bulk(v));
    }
    RespValue::Array(fields)
}

fn reply(jobs: Vec<RespValue>, metas: Vec<RespValue>) -> Vec<RespValue> {
    vec![RespValue::Array(jobs), RespValue::Array(metas)]
}

#[test]
fn decodes_a_task_and_its_metadata() {
    let data = reply(
        vec![bulk("payload")],
        vec![record(
            "01ARZ3NDEKTSV4RRFFQ69G5FAV",
            &[
                ("attempts", "2"),
                ("max_attempts", "+25"),
                ("status", "Running"),
                ("idempotency_key", "key-1"),
                ("locked_by", "worker-a"),
                ("locked_at", "1700000000"),
                ("custom", "x"),
                ("custom", "y"),
            ],
        )],
    );
    let tasks = deserialize_with_meta(data).unwrap();
    assert_eq!(tasks.len(), 1);
    let t = &tasks[0];
    assert_eq!(t.data, b"payload".to_vec());
    assert_eq!(t.attempts, 2);
    assert_eq!(t.max_attempts, 25);
    assert_eq!(t.status, TaskStatus::Running);
    assert_eq!(t.task_id.to_string(), "01ARZ3NDEKTSV4RRFFQ69G5FAV");
    assert_eq!(t.idempotency_key.as_deref(), Some("key-1"));
    assert_eq!(t.lock_by.as_deref(), Some("worker-a"));
    assert_eq!(t.lock_at, Some(1700000000));
    assert_eq!(t.meta.len(), 1);
    assert_eq!(t.meta.get(&"custom".to_owned()).map(|s| s.as_str()), Some("y"));
    assert!(!t.meta.contains_key(&"attempts".to_owned()));
}

#[test]
fn empty_idempotency_key_and_bad_lock_time() {
    let data = reply(
        vec![bulk("p")],
        vec![record(
            "7",
            &[
                ("status", "Done"),
                ("max_attempts", "5"),
                ("attempts", "1"),
                ("idempotency_key", ""),
                ("locked_at", "soon"),
            ],
        )],
    );
    let tasks = deserialize_with_meta(data).unwrap();
    assert_eq!(tasks[0].idempotency_key, None);
    assert_eq!(tasks[0].lock_at, Some(0));
    assert_eq!(tasks[0].lock_by, None);
    assert_eq!(tasks[0].meta.len(), 0);
}

#[test]
fn several_tasks_keep_their_order() {
    let meta = |id: &str| record(id, &[("attempts", "0"), ("max_attempts", "3"), ("status", "Queued")]);
    let data = reply(vec![bulk("a"), bulk("b")], vec![meta("1"), meta("2")]);
    let tasks = deserialize_with_meta(data).unwrap();
    assert_eq!(tasks.len(), 2);
    assert_eq!(tasks[0].data, b"a".to_vec());
    assert_eq!(tasks[1].data, b"b".to_vec());
    assert_eq!(tasks[1].task_id.to_string(), "2");
}

#[test]
fn empty_lists_decode_to_no_tasks() {
    assert_eq!(deserialize_with_meta(reply(vec![], vec![])).unwrap().len(), 0);
}

fn err(data: Vec<RespValue>) -> DecodeError {
    match deserialize_with_meta(data) {
        Ok(_) => panic!("expected an error"),
        Err(e) => e,
    }
}

#[test]
fn shape_errors() {
    assert!(matches!(err(vec![]), DecodeError::MissingElements));
    assert!(matches!(err(vec![RespValue::Array(vec![])]), DecodeError::MissingElements));
    assert!(matches!(
        err(vec![RespValue::Array(vec![]), RespValue::Array(vec![]), RespValue::Other]),
        DecodeError::TooManyElements
    ));
    assert!(matches!(
        err(vec![RespValue::Other, RespValue::Array(vec![])]),
        DecodeError::JobDataNotArray
    ));
    assert!(matches!(
        err(vec![RespValue::Array(vec![]), bulk("x")]),
        DecodeError::MetadataNotArray
    ));
    assert!(matches!(
        err(reply(vec![bulk("a")], vec![])),
        DecodeError::LengthMismatch
    ));
    assert!(matches!(
        err(reply(vec![RespValue::Other], vec![record("1", &[])])),
        DecodeError::InvalidJobData
    ));
    assert!(matches!(
        err(reply(vec![bulk("a")], vec![bulk("1")])),
        DecodeError::InvalidMetadata
    ));
    assert!(matches!(
        err(reply(vec![bulk("a")], vec![RespValue::Array(vec![])])),
        DecodeError::MetadataTooShort
    ));
}

#[test]
fn field_errors() {
    assert!(matches!(
        err(reply(vec![bulk("a")], vec![RespValue::Array(vec![RespValue::Other])])),
        DecodeError::NotBulkString(Field::TaskId)
    ));
    assert!(matches!(
        err(reply(
            vec![bulk("a")],
            vec![RespValue::Array(vec![RespValue::BulkString(vec![0xff])])]
        )),
        DecodeError::NotUtf8(Field::TaskId)
    ));
    assert!(matches!(
        err(reply(vec![bulk("a")], vec![record("", &[])])),
        DecodeError::InvalidTaskId
    ));
    assert!(matches!(
        err(reply(
            vec![bulk("a")],
            vec![RespValue::Array(vec![bulk("1"), bulk("attempts")])]
        )),
        DecodeError::OddFieldCount
    ));
    assert!(matches!(
        err(reply(
            vec![bulk("a")],
            vec![RespValue::Array(vec![bulk("1"), RespValue::Other, bulk("x")])]
        )),
        DecodeError::NotBulkString(Field::MetaKey)
    ));
    assert!(matches!(
        err(reply(vec![bulk("a")], vec![record("1", &[])])),
        DecodeError::MissingField(Field::Attempts)
    ));
    assert!(matches!(
        err(reply(vec![bulk("a")], vec![record("1", &[("attempts", "-1")])])),
        DecodeError::InvalidNumber(Field::Attempts)
    ));
    assert!(matches!(
        err(reply(vec![bulk("a")], vec![record("1", &[("attempts", "4294967296")])])),
        DecodeError::InvalidNumber(Field::Attempts)
    ));
    assert!(matches!(
        err(reply(vec![bulk("a")], vec![record("1", &[("attempts", "1")])])),
        DecodeError::MissingField(Field::MaxAttempts)
    ));
    assert!(matches!(
        err(reply(
            vec![bulk("a")],
            vec![record("1", &[("attempts", "1"), ("max_attempts", "2")])]
        )),
        DecodeError::MissingField(Field::Status)
    ));
    match err(reply(
        vec![bulk("a")],
        vec![record("1", &[("attempts", "1"), ("max_attempts", "2"), ("status", "done")])],
    )) {
        DecodeError::UnknownStatus(s) => assert_eq!(s, "done"),
        e => panic!("unexpected {e:?}"),
    }
}

#[test]
fn the_first_failing_task_decides_the_error() {
    let good = record("1", &[("attempts", "0"), ("max_attempts", "3"), ("status", "Queued")]);
    let data = reply(
        vec![bulk("a"), RespValue::Other, bulk("c")],
        vec![good, record("2", &[]), RespValue::Other],
    );
    assert!(matches!(err(data), DecodeError::InvalidJobData));
}
