//! Decoding the replies in which the queue's scripts hand back tasks: a
//! list of job payloads beside a list of metadata records.
use vstd::prelude::*;

use crate::meta::MetaMap;
use crate::status::{parse_status, status_named, TaskStatus};
use crate::task_id::{parse_task_id, task_id_from_text};
use crate::text::{decimal_value, parse_u32, parse_u64, utf8_of, utf8_text};
use apalis_core::task::task_id::TaskId;

verus! {

/// A reply value of the store, as far as decoding tells values apart.
#[derive(Debug)]
pub enum RespValue {
    /// A string of bytes.
    BulkString(Vec<u8>),
    /// A list of values.
    Array(Vec<RespValue>),
    /// An error reported by the server.
    ServerError(String),
    /// Any other kind of value.
    Other,
}

/// The part of a metadata record that a decoding error is about.
#[derive(Clone, Copy, Debug, PartialEq, Eq, Structural)]
pub enum Field {
    /// The task's identifier.
    TaskId,
    /// The key of a metadata entry.
    MetaKey,
    /// The value of a metadata entry.
    MetaValue,
    /// The number of attempts made.
    Attempts,
    /// The number of attempts allowed.
    MaxAttempts,
    /// The task's state.
    Status,
}

/// Why a reply could not be decoded into tasks.
#[derive(Clone, Debug)]
pub enum DecodeError {
    /// The reply holds fewer than two values.
    MissingElements,
    /// The reply holds more than two values.
    TooManyElements,
    /// The first value of the reply is not a list.
    JobDataNotArray,
    /// The second value of the reply is not a list.
    MetadataNotArray,
    /// The payloads and the metadata records differ in number.
    LengthMismatch,
    /// A payload is not a string of bytes.
    InvalidJobData,
    /// A metadata record is not a list.
    InvalidMetadata,
    /// A metadata record is empty.
    MetadataTooShort,
    /// A part of a record is not a string of bytes.
    NotBulkString(Field),
    /// A part of a record is not valid UTF-8.
    NotUtf8(Field),
    /// The task identifier is empty.
    InvalidTaskId,
    /// The entries after the identifier are not whole key/value pairs.
    OddFieldCount,
    /// A required entry is absent.
    MissingField(Field),
    /// An entry is not an unsigned decimal number in range.
    InvalidNumber(Field),
    /// The state entry names no state; it holds the text found.
    UnknownStatus(String),
}

/// A decoding error, with its text as characters.
pub enum DecodeFailure {
    MissingElements,
    TooManyElements,
    JobDataNotArray,
    MetadataNotArray,
    LengthMismatch,
    InvalidJobData,
    InvalidMetadata,
    MetadataTooShort,
    NotBulkString(Field),
    NotUtf8(Field),
    InvalidTaskId,
    OddFieldCount,
    MissingField(Field),
    InvalidNumber(Field),
    UnknownStatus(Seq<char>),
}

impl View for DecodeError {
    type V = DecodeFailure;

    open spec fn view(&self) -> DecodeFailure {
        match self {
            DecodeError::MissingElements => DecodeFailure::MissingElements,
            DecodeError::TooManyElements => DecodeFailure::TooManyElements,
            DecodeError::JobDataNotArray => DecodeFailure::JobDataNotArray,
            DecodeError::MetadataNotArray => DecodeFailure::MetadataNotArray,
            DecodeError::LengthMismatch => DecodeFailure::LengthMismatch,
            DecodeError::InvalidJobData => DecodeFailure::InvalidJobData,
            DecodeError::InvalidMetadata => DecodeFailure::InvalidMetadata,
            DecodeError::MetadataTooShort => DecodeFailure::MetadataTooShort,
            DecodeError::NotBulkString(f) => DecodeFailure::NotBulkString(*f),
            DecodeError::NotUtf8(f) => DecodeFailure::NotUtf8(*f),
            DecodeError::InvalidTaskId => DecodeFailure::InvalidTaskId,
            DecodeError::OddFieldCount => DecodeFailure::OddFieldCount,
            DecodeError::MissingField(f) => DecodeFailure::MissingField(*f),
            DecodeError::InvalidNumber(f) => DecodeFailure::InvalidNumber(*f),
            DecodeError::UnknownStatus(s) => DecodeFailure::UnknownStatus(s@),
        }
    }
}

/// A task as the store holds it: its payload still encoded.
#[derive(Debug)]
pub struct CompactTask {
    /// The encoded payload.
    pub data: Vec<u8>,
    /// The number of attempts made.
    pub attempts: u32,
    /// The number of attempts allowed.
    pub max_attempts: u32,
    /// The task's state.
    pub status: TaskStatus,
    /// The task's identifier.
    pub task_id: TaskId,
    /// A key that keeps the task from being queued twice.
    pub idempotency_key: Option<String>,
    /// The metadata beyond the fields above.
    pub meta: MetaMap,
    /// The worker that holds the task.
    pub lock_by: Option<String>,
    /// When the task was locked.
    pub lock_at: Option<u64>,
}

/// A task as decoding describes it.
pub struct CompactTaskView {
    pub data: Seq<u8>,
    pub attempts: u32,
    pub max_attempts: u32,
    pub status: TaskStatus,
    pub task_id: TaskId,
    pub idempotency_key: Option<Seq<char>>,
    pub meta: Map<Seq<char>, Seq<char>>,
    pub lock_by: Option<Seq<char>>,
    pub lock_at: Option<u64>,
}

/// An optional text as characters.
pub open spec fn opt_text(o: Option<String>) -> Option<Seq<char>> {
    match o {
        Some(s) => Some(s@),
        None => None,
    }
}

impl View for CompactTask {
    type V = CompactTaskView;

    open spec fn view(&self) -> CompactTaskView {
        CompactTaskView {
            data: self.data@,
            attempts: self.attempts,
            max_attempts: self.max_attempts,
            status: self.status,
            task_id: self.task_id,
            idempotency_key: opt_text(self.idempotency_key),
            meta: self.meta@,
            lock_by: opt_text(self.lock_by),
            lock_at: self.lock_at,
        }
    }
}

/// The tasks as decoding describes them.
pub open spec fn tasks_view(tasks: Seq<CompactTask>) -> Seq<CompactTaskView> {
    tasks.map_values(|t: CompactTask| t@)
}

/// The text held by a part of a record.
pub open spec fn text_of(v: RespValue, field: Field) -> Result<Seq<char>, DecodeFailure> {
    match v {
        RespValue::BulkString(b) => match utf8_of(b@) {
            Some(s) => Ok(s),
            None => Err(DecodeFailure::NotUtf8(field)),
        },
        _ => Err(DecodeFailure::NotBulkString(field)),
    }
}

/// The metadata entries read from key/value pairs, in order, into `acc`; a
/// later pair overrides an earlier one with the same key.
pub open spec fn meta_fold(pairs: Seq<RespValue>, acc: Map<Seq<char>, Seq<char>>) -> Result<
    Map<Seq<char>, Seq<char>>,
    DecodeFailure,
>
    decreases pairs.len(),
{
    if pairs.len() < 2 {
        Ok(acc)
    } else {
        match text_of(pairs[0], Field::MetaKey) {
            Err(e) => Err(e),
            Ok(k) => match text_of(pairs[1], Field::MetaValue) {
                Err(e) => Err(e),
                Ok(v) => meta_fold(pairs.skip(2), acc.insert(k, v)),
            },
        }
    }
}

/// The metadata keys that stand for fields of the task.
pub open spec fn reserved_keys() -> Set<Seq<char>> {
    set![
        "attempts"@,
        "max_attempts"@,
        "status"@,
        "idempotency_key"@,
        "locked_by"@,
        "locked_at"@,
    ]
}

/// The task that a payload and its metadata entries describe.
pub open spec fn decode_fields(data: Seq<u8>, task_id: TaskId, m: Map<Seq<char>, Seq<char>>) -> Result<
    CompactTaskView,
    DecodeFailure,
> {
    if !m.contains_key("attempts"@) {
        Err(DecodeFailure::MissingField(Field::Attempts))
    } else if decimal_value(m["attempts"@], u32::MAX as nat) is None {
        Err(DecodeFailure::InvalidNumber(Field::Attempts))
    } else if !m.contains_key("max_attempts"@) {
        Err(DecodeFailure::MissingField(Field::MaxAttempts))
    } else if decimal_value(m["max_attempts"@], u32::MAX as nat) is None {
        Err(DecodeFailure::InvalidNumber(Field::MaxAttempts))
    } else if !m.contains_key("status"@) {
        Err(DecodeFailure::MissingField(Field::Status))
    } else if status_named(m["status"@]) is None {
        Err(DecodeFailure::UnknownStatus(m["status"@]))
    } else {
        Ok(
            CompactTaskView {
                data,
                attempts: decimal_value(m["attempts"@], u32::MAX as nat)->0 as u32,
                max_attempts: decimal_value(m["max_attempts"@], u32::MAX as nat)->0 as u32,
                status: status_named(m["status"@])->0,
                task_id,
                idempotency_key: if m.contains_key("idempotency_key"@) && m["idempotency_key"@].len()
                    > 0 {
                    Some(m["idempotency_key"@])
                } else {
                    None
                },
                meta: m.remove_keys(reserved_keys()),
                lock_by: if m.contains_key("locked_by"@) {
                    Some(m["locked_by"@])
                } else {
                    None
                },
                lock_at: if m.contains_key("locked_at"@) {
                    Some(
                        match decimal_value(m["locked_at"@], u64::MAX as nat) {
                            Some(n) => n as u64,
                            None => 0,
                        },
                    )
                } else {
                    None
                },
            },
        )
    }
}

/// The task that a payload and its metadata record describe.
pub open spec fn decode_task(job: RespValue, meta: RespValue) -> Result<CompactTaskView, DecodeFailure> {
    match job {
        RespValue::BulkString(data) => match meta {
            RespValue::Array(fields) => {
                if fields@.len() == 0 {
                    Err(DecodeFailure::MetadataTooShort)
                } else {
                    match text_of(fields@[0], Field::TaskId) {
                        Err(e) => Err(e),
                        Ok(id_text) => match task_id_from_text(id_text) {
                            None => Err(DecodeFailure::InvalidTaskId),
                            Some(task_id) => {
                                let pairs = fields@.skip(1);
                                if pairs.len() % 2 != 0 {
                                    Err(DecodeFailure::OddFieldCount)
                                } else {
                                    match meta_fold(pairs, Map::empty()) {
                                        Err(e) => Err(e),
                                        Ok(m) => decode_fields(data@, task_id, m),
                                    }
                                }
                            },
                        },
                    }
                }
            },
            _ => Err(DecodeFailure::InvalidMetadata),
        },
        _ => Err(DecodeFailure::InvalidJobData),
    }
}

/// The first `n` tasks of the lists, or the error of the first that fails.
pub open spec fn decode_prefix(jobs: Seq<RespValue>, metas: Seq<RespValue>, n: nat) -> Result<
    Seq<CompactTaskView>,
    DecodeFailure,
>
    decreases n,
{
    if n == 0 {
        Ok(Seq::empty())
    } else {
        match decode_prefix(jobs, metas, (n - 1) as nat) {
            Err(e) => Err(e),
            Ok(done) => match decode_task(jobs[n - 1], metas[n - 1]) {
                Err(e) => Err(e),
                Ok(t) => Ok(done.push(t)),
            },
        }
    }
}

/// The tasks of a reply: exactly two lists, payloads and metadata records,
/// of equal length.
pub open spec fn decode_reply(data: Seq<RespValue>) -> Result<Seq<CompactTaskView>, DecodeFailure> {
    if data.len() < 2 {
        Err(DecodeFailure::MissingElements)
    } else if data.len() > 2 {
        Err(DecodeFailure::TooManyElements)
    } else {
        match data[0] {
            RespValue::Array(jobs) => match data[1] {
                RespValue::Array(metas) => {
                    if jobs@.len() != metas@.len() {
                        Err(DecodeFailure::LengthMismatch)
                    } else {
                        decode_prefix(jobs@, metas@, jobs@.len())
                    }
                },
                _ => Err(DecodeFailure::MetadataNotArray),
            },
            _ => Err(DecodeFailure::JobDataNotArray),
        }
    }
}

/// A decoded prefix holds one task per pair, each the decoding of its pair.
proof fn lemma_decode_prefix_ok(jobs: Seq<RespValue>, metas: Seq<RespValue>, n: nat)
    requires
        decode_prefix(jobs, metas, n) is Ok,
    ensures
        decode_prefix(jobs, metas, n)->Ok_0.len() == n,
        forall|i: int|
            0 <= i < n ==> decode_task(jobs[i], metas[i]) == Ok::<CompactTaskView, DecodeFailure>(
                #[trigger] decode_prefix(jobs, metas, n)->Ok_0[i],
            ),
    decreases n,
{
    if n > 0 {
        lemma_decode_prefix_ok(jobs, metas, (n - 1) as nat);
        let done = decode_prefix(jobs, metas, (n - 1) as nat)->Ok_0;
        let all = decode_prefix(jobs, metas, n)->Ok_0;
        assert forall|i: int| 0 <= i < n implies decode_task(jobs[i], metas[i]) == Ok::<
            CompactTaskView,
            DecodeFailure,
        >(#[trigger] all[i]) by {
            if i < n - 1 {
                assert(all[i] == done[i]);
            }
        }
    }
}

/// A decoded task carries its payload; none of the keys that stand for its
/// fields stays among its metadata; an idempotency key it carries is not
/// empty.
pub proof fn lemma_decoded_task(job: RespValue, meta: RespValue)
    requires
        decode_task(job, meta) is Ok,
    ensures
        job matches RespValue::BulkString(b) && decode_task(job, meta)->Ok_0.data == b@,
        forall|k: Seq<char>|
            #[trigger] reserved_keys().contains(k) ==> !decode_task(job, meta)->Ok_0.meta.contains_key(k),
        decode_task(job, meta)->Ok_0.idempotency_key matches Some(key) ==> key.len() > 0,
{
}

/// A reply decodes into exactly one task per payload, each the decoding of
/// its payload and metadata record.
pub proof fn lemma_decoded_reply(data: Seq<RespValue>)
    requires
        decode_reply(data) is Ok,
    ensures
        data.len() == 2,
        data[0] matches RespValue::Array(jobs) && data[1] matches RespValue::Array(metas) && {
            let ts = decode_reply(data)->Ok_0;
            &&& ts.len() == jobs@.len()
            &&& ts.len() == metas@.len()
            &&& forall|i: int|
                0 <= i < ts.len() ==> decode_task(jobs@[i], metas@[i]) == Ok::<
                    CompactTaskView,
                    DecodeFailure,
                >(#[trigger] ts[i])
        },
{
    match data[0] {
        RespValue::Array(jobs) => match data[1] {
            RespValue::Array(metas) => {
                lemma_decode_prefix_ok(jobs@, metas@, jobs@.len());
            },
            _ => {},
        },
        _ => {},
    }
}

/// Once a prefix fails, every longer prefix fails with the same error.
proof fn lemma_decode_prefix_err(jobs: Seq<RespValue>, metas: Seq<RespValue>, i: nat, n: nat)
    requires
        i <= n,
        decode_prefix(jobs, metas, i) is Err,
    ensures
        decode_prefix(jobs, metas, n) == decode_prefix(jobs, metas, i),
    decreases n - i,
{
    if i < n {
        lemma_decode_prefix_err(jobs, metas, i, (n - 1) as nat);
    }
}

/// The text held by a part of a record.
pub fn str_from_val(val: &RespValue, field: Field) -> (r: Result<String, DecodeError>)
    ensures
        match r {
            Ok(s) => text_of(*val, field) == Ok::<Seq<char>, DecodeFailure>(s@),
            Err(e) => text_of(*val, field) == Err::<Seq<char>, DecodeFailure>(e@),
        },
{
    match val {
        RespValue::BulkString(bytes) => match utf8_text(bytes.as_slice()) {
            Some(s) => Ok(s),
            None => Err(DecodeError::NotUtf8(field)),
        },
        _ => Err(DecodeError::NotBulkString(field)),
    }
}

/// The reserved keys are six different texts.
proof fn lemma_reserved_keys_distinct()
    ensures
        "attempts"@ != "max_attempts"@,
        "attempts"@ != "status"@,
        "attempts"@ != "idempotency_key"@,
        "attempts"@ != "locked_by"@,
        "attempts"@ != "locked_at"@,
        "max_attempts"@ != "status"@,
        "max_attempts"@ != "idempotency_key"@,
        "max_attempts"@ != "locked_by"@,
        "max_attempts"@ != "locked_at"@,
        "status"@ != "idempotency_key"@,
        "status"@ != "locked_by"@,
        "status"@ != "locked_at"@,
        "idempotency_key"@ != "locked_by"@,
        "idempotency_key"@ != "locked_at"@,
        "locked_by"@ != "locked_at"@,
{
    reveal_strlit("attempts");
    reveal_strlit("max_attempts");
    reveal_strlit("status");
    reveal_strlit("idempotency_key");
    reveal_strlit("locked_by");
    reveal_strlit("locked_at");
    assert("attempts"@.len() == 8);
    assert("max_attempts"@.len() == 12);
    assert("status"@.len() == 6);
    assert("idempotency_key"@.len() == 15);
    assert("locked_by"@.len() == 9);
    assert("locked_at"@.len() == 9);
    assert("locked_by"@[7] != "locked_at"@[7]);
}

/// The task that a payload and its metadata entries describe.
fn decode_fields_exec(data: Vec<u8>, task_id: TaskId, meta: MetaMap) -> (r: Result<
    CompactTask,
    DecodeError,
>)
    ensures
        match r {
            Ok(t) => decode_fields(data@, task_id, meta@) == Ok::<CompactTaskView, DecodeFailure>(
                t@,
            ),
            Err(e) => decode_fields(data@, task_id, meta@) == Err::<CompactTaskView, DecodeFailure>(
                e@,
            ),
        },
{
    proof {
        lemma_reserved_keys_distinct();
    }
    let ghost m = meta@;
    let mut meta = meta;
    let k_attempts = "attempts".to_owned();
    let k_max_attempts = "max_attempts".to_owned();
    let k_status = "status".to_owned();
    let k_idempotency = "idempotency_key".to_owned();
    let k_locked_by = "locked_by".to_owned();
    let k_locked_at = "locked_at".to_owned();
    let attempts = match meta.remove(&k_attempts) {
        None => {
            return Err(DecodeError::MissingField(Field::Attempts));
        },
        Some(v) => match parse_u32(v.as_str()) {
            None => {
                return Err(DecodeError::InvalidNumber(Field::Attempts));
            },
            Some(n) => n,
        },
    };
    let max_attempts = match meta.remove(&k_max_attempts) {
        None => {
            return Err(DecodeError::MissingField(Field::MaxAttempts));
        },
        Some(v) => match parse_u32(v.as_str()) {
            None => {
                return Err(DecodeError::InvalidNumber(Field::MaxAttempts));
            },
            Some(n) => n,
        },
    };
    let status = match meta.remove(&k_status) {
        None => {
            return Err(DecodeError::MissingField(Field::Status));
        },
        Some(v) => match parse_status(v.as_str()) {
            None => {
                return Err(DecodeError::UnknownStatus(v));
            },
            Some(st) => st,
        },
    };
    let idempotency_key = match meta.remove(&k_idempotency) {
        Some(v) => {
            if v.as_str().is_empty() {
                None
            } else {
                Some(v)
            }
        },
        None => None,
    };
    let lock_by = meta.remove(&k_locked_by);
    let lock_at = match meta.remove(&k_locked_at) {
        Some(a) => Some(
            match parse_u64(a.as_str()) {
                Some(n) => n,
                None => 0,
            },
        ),
        None => None,
    };
    assert(meta@ =~= m.remove_keys(reserved_keys()));
    let t = CompactTask {
        data,
        attempts,
        max_attempts,
        status,
        task_id,
        idempotency_key,
        meta,
        lock_by,
        lock_at,
    };
    assert(t@.idempotency_key == decode_fields(data@, task_id, m)->Ok_0.idempotency_key);
    Ok(t)
}

/// The metadata entries of a record: the key/value pairs after its first
/// part, which hold an even number of parts.
fn read_meta_pairs(fields: &Vec<RespValue>) -> (r: Result<MetaMap, DecodeError>)
    requires
        fields@.len() >= 1,
        (fields@.len() - 1) % 2 == 0,
    ensures
        match r {
            Ok(m) => meta_fold(fields@.skip(1), Map::empty()) == Ok::<
                Map<Seq<char>, Seq<char>>,
                DecodeFailure,
            >(m@),
            Err(e) => meta_fold(fields@.skip(1), Map::empty()) == Err::<
                Map<Seq<char>, Seq<char>>,
                DecodeFailure,
            >(e@),
        },
{
    let ghost pairs = fields@.skip(1);
    let mut entries = MetaMap::new();
    let mut i: usize = 1;
    while i < fields.len()
        invariant
            1 <= i <= fields@.len(),
            (i - 1) % 2 == 0,
            (fields@.len() - 1) % 2 == 0,
            pairs == fields@.skip(1),
            meta_fold(pairs, Map::empty()) == meta_fold(fields@.skip(i as int), entries@),
        decreases fields@.len() - i,
    {
        let ghost rest = fields@.skip(i as int);
        assert(rest[0] == fields@[i as int]);
        assert(rest[1] == fields@[i + 1]);
        assert(rest.skip(2) =~= fields@.skip(i + 2));
        let k = match str_from_val(&fields[i], Field::MetaKey) {
            Ok(s) => s,
            Err(e) => {
                return Err(e);
            },
        };
        let v = match str_from_val(&fields[i + 1], Field::MetaValue) {
            Ok(s) => s,
            Err(e) => {
                return Err(e);
            },
        };
        entries.insert(k, v);
        i = i + 2;
    }
    assert(fields@.skip(i as int).len() == 0);
    Ok(entries)
}

/// The task that a payload and its metadata record describe.
pub fn decode_task_exec(job: &RespValue, meta: &RespValue) -> (r: Result<CompactTask, DecodeError>)
    ensures
        match r {
            Ok(t) => decode_task(*job, *meta) == Ok::<CompactTaskView, DecodeFailure>(t@),
            Err(e) => decode_task(*job, *meta) == Err::<CompactTaskView, DecodeFailure>(e@),
        },
{
    let data = match job {
        RespValue::BulkString(bytes) => {
            let d = bytes.clone();
            assert(d@ =~= bytes@);
            d
        },
        _ => {
            return Err(DecodeError::InvalidJobData);
        },
    };
    let fields = match meta {
        RespValue::Array(fields) => fields,
        _ => {
            return Err(DecodeError::InvalidMetadata);
        },
    };
    if fields.len() == 0 {
        return Err(DecodeError::MetadataTooShort);
    }
    let id_text = match str_from_val(&fields[0], Field::TaskId) {
        Ok(s) => s,
        Err(e) => {
            return Err(e);
        },
    };
    let task_id = match parse_task_id(id_text.as_str()) {
        Some(t) => t,
        None => {
            return Err(DecodeError::InvalidTaskId);
        },
    };
    if (fields.len() - 1) % 2 != 0 {
        return Err(DecodeError::OddFieldCount);
    }
    let entries = match read_meta_pairs(fields) {
        Ok(m) => m,
        Err(e) => {
            return Err(e);
        },
    };
    decode_fields_exec(data, task_id, entries)
}

/// Decodes the tasks of two lists of equal length, stopping at the first
/// that fails.
fn decode_lists(jobs: &Vec<RespValue>, metas: &Vec<RespValue>) -> (r: Result<
    Vec<CompactTask>,
    DecodeError,
>)
    requires
        jobs@.len() == metas@.len(),
    ensures
        match r {
            Ok(tasks) => decode_prefix(jobs@, metas@, jobs@.len()) == Ok::<
                Seq<CompactTaskView>,
                DecodeFailure,
            >(tasks_view(tasks@)),
            Err(e) => decode_prefix(jobs@, metas@, jobs@.len()) == Err::<
                Seq<CompactTaskView>,
                DecodeFailure,
            >(e@),
        },
{
    let mut tasks: Vec<CompactTask> = Vec::new();
    assert(tasks_view(tasks@) =~= Seq::<CompactTaskView>::empty());
    let mut i: usize = 0;
    while i < jobs.len()
        invariant
            i <= jobs@.len(),
            jobs@.len() == metas@.len(),
            decode_prefix(jobs@, metas@, i as nat) == Ok::<Seq<CompactTaskView>, DecodeFailure>(
                tasks_view(tasks@),
            ),
        decreases jobs@.len() - i,
    {
        match decode_task_exec(&jobs[i], &metas[i]) {
            Ok(t) => {
                let ghost before = tasks@;
                let ghost tv = t@;
                tasks.push(t);
                assert(tasks_view(tasks@) =~= tasks_view(before).push(tv));
            },
            Err(e) => {
                proof {
                    lemma_decode_prefix_err(jobs@, metas@, (i + 1) as nat, jobs@.len());
                }
                return Err(e);
            },
        }
        i = i + 1;
    }
    Ok(tasks)
}

/// Decodes a reply of the store into tasks: the reply holds exactly two
/// lists of equal length, the payloads and their metadata records.
pub fn deserialize_with_meta(data: Vec<RespValue>) -> (r: Result<Vec<CompactTask>, DecodeError>)
    ensures
        match r {
            Ok(tasks) => decode_reply(data@) == Ok::<Seq<CompactTaskView>, DecodeFailure>(
                tasks_view(tasks@),
            ),
            Err(e) => decode_reply(data@) == Err::<Seq<CompactTaskView>, DecodeFailure>(e@),
        },
{
    if data.len() < 2 {
        return Err(DecodeError::MissingElements);
    }
    if data.len() > 2 {
        return Err(DecodeError::TooManyElements);
    }
    let jobs = match &data[0] {
        RespValue::Array(jobs) => jobs,
        _ => {
            return Err(DecodeError::JobDataNotArray);
        },
    };
    let metas = match &data[1] {
        RespValue::Array(metas) => metas,
        _ => {
            return Err(DecodeError::MetadataNotArray);
        },
    };
    if jobs.len() != metas.len() {
        return Err(DecodeError::LengthMismatch);
    }
    decode_lists(jobs, metas)
}

} // verus!
