//! Queueing a batch of tasks.
use vstd::prelude::*;

use crate::config::{queue_key, Config};
use crate::duration::Duration;
use crate::queries::fetch_by_id::is_fetch_by_id_call;
use crate::queries::fetch_next::is_fetch_next_call;
use crate::script::{ArgView, Script, ScriptArg, ScriptCall};
use crate::task_id::{generate_task_id, is_ulid_text};

verus! {

/// A task to be queued, its payload encoded.
#[derive(Clone, Debug)]
pub struct PushTask {
    /// The task's identifier as text, if it has one.
    pub task_id: Option<String>,
    /// The encoded payload.
    pub args: Vec<u8>,
    /// The current attempt.
    pub attempt: usize,
    /// The number of attempts allowed, if limited by the task.
    pub max_attempts: Option<usize>,
    /// The task's metadata, encoded as JSON.
    pub metadata: String,
    /// When the task is due, in seconds since the Unix epoch.
    pub run_at: Option<u64>,
    /// A key that keeps the task from being queued twice.
    pub idempotency_key: Option<String>,
}

/// The number of attempts allowed when a task sets no limit.
pub const DEFAULT_MAX_ATTEMPTS: usize = 25;

/// When a task is scheduled at time `now`: when it is due, but never in the
/// past.
pub open spec fn scheduled_at(t: PushTask, now: u64) -> u64 {
    let run_at = match t.run_at {
        Some(r) => r,
        None => 0,
    };
    if run_at > now {
        run_at
    } else {
        now
    }
}

/// A task is never scheduled in the past, nor before it is due.
pub proof fn lemma_scheduled_not_in_past(t: PushTask, now: u64)
    ensures
        scheduled_at(t, now) >= now,
        t.run_at matches Some(r) ==> scheduled_at(t, now) >= r,
        scheduled_at(t, now) == now || t.run_at == Some(scheduled_at(t, now)),
{
}

/// The arguments that queue one task at time `now` under the identifier
/// `id`.
pub open spec fn push_args(t: PushTask, id: Seq<char>, now: u64) -> Seq<ArgView> {
    seq![
        ArgView::Text(id),
        ArgView::Bytes(t.args@),
        ArgView::Int((t.attempt as u32) as u64),
        ArgView::Int(max_attempts_of(t)),
        ArgView::Text(t.metadata@),
        ArgView::Int(scheduled_at(t, now)),
        ArgView::Text(idempotency_key_of(t)),
    ]
}

/// The arguments that queue the tasks, in order, under the identifiers
/// `ids`.
pub open spec fn pushes_args(ts: Seq<PushTask>, ids: Seq<Seq<char>>, now: u64) -> Seq<ArgView>
    decreases ts.len(),
{
    if ts.len() == 0 {
        Seq::empty()
    } else {
        pushes_args(ts.drop_last(), ids.drop_last(), now) + push_args(ts.last(), ids.last(), now)
    }
}

/// The arguments of the `i`-th task among `args`, seven to each task.
pub open spec fn push_group(args: Seq<ArgView>, i: int) -> Seq<ArgView> {
    args.subrange(7 * i, 7 * i + 7)
}

/// The value sent as a task's limit of attempts: its own, or the default.
pub open spec fn max_attempts_of(t: PushTask) -> u64 {
    match t.max_attempts {
        Some(m) => m as u64,
        None => DEFAULT_MAX_ATTEMPTS as u64,
    }
}

/// The idempotency key sent for a task: its own, or empty text.
pub open spec fn idempotency_key_of(t: PushTask) -> Seq<char> {
    match t.idempotency_key {
        Some(k) => k@,
        None => Seq::empty(),
    }
}

/// Each task is queued by seven arguments of its own, in the order of the
/// tasks: the `i`-th seven carry the identifier `ids[i]`, then the payload,
/// attempt, limit of attempts, metadata, due time and idempotency key of the
/// `i`-th task, for every `i`.
pub proof fn lemma_pushes_args_layout(ts: Seq<PushTask>, ids: Seq<Seq<char>>, now: u64)
    requires
        ids.len() == ts.len(),
    ensures
        pushes_args(ts, ids, now).len() == 7 * ts.len(),
        forall|i: int|
            #![trigger push_group(pushes_args(ts, ids, now), i)]
            0 <= i < ts.len() ==> {
                &&& push_group(pushes_args(ts, ids, now), i)[0] == ArgView::Text(ids[i])
                &&& push_group(pushes_args(ts, ids, now), i)[1] == ArgView::Bytes(ts[i].args@)
                &&& push_group(pushes_args(ts, ids, now), i)[2] == ArgView::Int(
                    (ts[i].attempt as u32) as u64,
                )
                &&& push_group(pushes_args(ts, ids, now), i)[3] == ArgView::Int(
                    max_attempts_of(ts[i]),
                )
                &&& push_group(pushes_args(ts, ids, now), i)[4] == ArgView::Text(ts[i].metadata@)
                &&& push_group(pushes_args(ts, ids, now), i)[5] == ArgView::Int(
                    scheduled_at(ts[i], now),
                )
                &&& push_group(pushes_args(ts, ids, now), i)[6] == ArgView::Text(
                    idempotency_key_of(ts[i]),
                )
            },
{
    lemma_pushes_args_len(ts, ids, now);
    assert forall|i: int| 0 <= i < ts.len() implies #[trigger] push_group(
        pushes_args(ts, ids, now),
        i,
    ) == push_args(ts[i], ids[i], now) by {
        lemma_push_group_at(ts, ids, now, i);
    }
}

proof fn lemma_pushes_args_len(ts: Seq<PushTask>, ids: Seq<Seq<char>>, now: u64)
    ensures
        pushes_args(ts, ids, now).len() == 7 * ts.len(),
    decreases ts.len(),
{
    if ts.len() > 0 {
        lemma_pushes_args_len(ts.drop_last(), ids.drop_last(), now);
    }
}

proof fn lemma_push_group_at(ts: Seq<PushTask>, ids: Seq<Seq<char>>, now: u64, i: int)
    requires
        ids.len() == ts.len(),
        0 <= i < ts.len(),
    ensures
        push_group(pushes_args(ts, ids, now), i) == push_args(ts[i], ids[i], now),
    decreases ts.len(),
{
    let prefix = ts.drop_last();
    lemma_pushes_args_len(prefix, ids.drop_last(), now);
    let head = pushes_args(prefix, ids.drop_last(), now);
    let all = pushes_args(ts, ids, now);
    assert(all == head + push_args(ts.last(), ids.last(), now));
    if i < prefix.len() {
        lemma_push_group_at(prefix, ids.drop_last(), now, i);
        assert(push_group(all, i) =~= push_group(head, i));
    } else {
        assert(push_group(all, i) =~= push_args(ts.last(), ids.last(), now));
    }
}

/// The identifiers under which tasks are queued: its own for a task that
/// has one, a fresh ULID in its text form for one that has none.
pub open spec fn ids_fit(ts: Seq<PushTask>, ids: Seq<Seq<char>>) -> bool {
    &&& ids.len() == ts.len()
    &&& forall|i: int|
        0 <= i < ts.len() ==> match (#[trigger] ts[i]).task_id {
            Some(id) => ids[i] == id@,
            None => is_ulid_text(ids[i]),
        }
}

/// Adds the arguments that queue one task at time `now`; gives back the
/// identifier it is queued under.
fn add_task_args(c: &mut ScriptCall, t: &PushTask, now: u64) -> (id: Ghost<Seq<char>>)
    ensures
        match t.task_id {
            Some(x) => id@ == x@,
            None => is_ulid_text(id@),
        },
        final(c).script == old(c).script,
        final(c).keys_view() == old(c).keys_view(),
        final(c).args_view() == old(c).args_view() + push_args(*t, id@, now),
{
    let id = match &t.task_id {
        Some(id) => id.clone(),
        None => generate_task_id(),
    };
    let ghost idv = id@;
    let run_at = match t.run_at {
        Some(r) => r,
        None => 0,
    };
    let run_at = if run_at > now {
        run_at
    } else {
        now
    };
    c.arg(ScriptArg::Text(id));
    let payload = t.args.clone();
    assert(payload@ =~= t.args@);
    c.arg(ScriptArg::Bytes(payload));
    c.arg(ScriptArg::Int((t.attempt as u32) as u64));
    let max_attempts = match t.max_attempts {
        Some(m) => m,
        None => DEFAULT_MAX_ATTEMPTS,
    };
    c.arg(ScriptArg::Int(max_attempts as u64));
    c.arg(ScriptArg::Text(t.metadata.clone()));
    c.arg(ScriptArg::Int(run_at));
    let key = match &t.idempotency_key {
        Some(k) => k.clone(),
        None => String::new(),
    };
    c.arg(ScriptArg::Text(key));
    assert(c.args_view() =~= old(c).args_view() + push_args(*t, idv, now));
    Ghost(idv)
}

/// How long, in whole seconds, an idempotency key is kept: 0 when keys are
/// kept forever (no time-to-live). A time-to-live is sent rounded up to whole
/// seconds and at least 1, so that every configured time-to-live, a zero one
/// too, makes keys expire; one whose seconds cannot be rounded up within a
/// `u64` is sent as its whole seconds.
pub open spec fn ttl_secs(ttl: Option<Duration>) -> u64 {
    match ttl {
        None => 0,
        Some(d) => if d.secs_part() == 0 {
            1
        } else if d.nanos_part() > 0 && d.secs_part() < u64::MAX {
            (d.secs_part() + 1) as u64
        } else {
            d.secs_part()
        },
    }
}

/// Keys kept forever and keys that expire are told apart: only the absence
/// of a time-to-live sends 0, and a configured time-to-live is never sent as
/// less than itself, nor as more than it rounded up to whole seconds (and 1
/// second at least).
pub proof fn lemma_ttl_secs(ttl: Option<Duration>)
    requires
        ttl matches Some(d) ==> d.wf(),
    ensures
        ttl_secs(ttl) == 0 <==> ttl is None,
        ttl matches Some(d) ==> ttl_secs(ttl) >= 1,
        ttl matches Some(d) ==> ttl_secs(ttl) as nat * 1_000_000_000 >= d.total_nanos() || d.secs_part()
            == u64::MAX,
        ttl matches Some(d) ==> ttl_secs(ttl) <= d.secs_part() + 1,
{
}

/// The time-to-live of idempotency keys in whole seconds, rounded up and at
/// least 1, or 0 when keys are kept forever.
pub fn idempotency_ttl_secs(ttl: &Option<Duration>) -> (secs: u64)
    ensures
        secs == ttl_secs(*ttl),
{
    match ttl {
        None => 0,
        Some(d) => {
            let secs = d.as_secs();
            if secs == 0 {
                1
            } else if d.subsec_nanos() > 0 && secs < u64::MAX {
                secs + 1
            } else {
                secs
            }
        },
    }
}

/// The keys that queueing a batch of tasks writes: the payloads, the queue of
/// pending tasks, the signal list, the metadata, the scheduled tasks and the
/// idempotency keys.
pub open spec fn batch_push_keys(config: Config) -> Seq<Seq<char>> {
    seq![
        queue_key(config.queue@, ":data"@),
        queue_key(config.queue@, ":active"@),
        queue_key(config.queue@, ":signal"@),
        queue_key(config.queue@, ":meta"@),
        queue_key(config.queue@, ":scheduled"@),
        queue_key(config.queue@, ":idempotency"@),
    ]
}

/// Queued tasks are stored where they are looked for: the payloads, the
/// pending queue, the signal list, the metadata and the scheduled tasks that
/// a push writes are those that a fetch for a worker reads, and a lookup by
/// identifier reads the same payloads and metadata.
pub proof fn lemma_pushed_tasks_are_found(
    config: Config,
    worker: Seq<char>,
    fetch: ScriptCall,
    fetch_at: u64,
    lookup: ScriptCall,
    task_id: Seq<char>,
)
    requires
        is_fetch_next_call(fetch, config, worker, fetch_at),
        is_fetch_by_id_call(lookup, config, task_id),
    ensures
        batch_push_keys(config)[0] == fetch.keys_view()[3],
        batch_push_keys(config)[1] == fetch.keys_view()[1],
        batch_push_keys(config)[2] == fetch.keys_view()[4],
        batch_push_keys(config)[3] == fetch.keys_view()[5],
        batch_push_keys(config)[4] == fetch.keys_view()[6],
        batch_push_keys(config)[0] == lookup.keys_view()[0],
        batch_push_keys(config)[3] == lookup.keys_view()[1],
{
}

/// The invocation that queues the tasks at time `now`; a task without an
/// identifier is given a fresh one. Its first argument is the time-to-live of
/// idempotency keys (`ttl_secs`), the arguments of the tasks follow.
pub fn push_tasks_call(config: &Config, tasks: &Vec<PushTask>, now: u64) -> (c: ScriptCall)
    ensures
        c.script == Script::BatchPush,
        c.keys_view() == batch_push_keys(*config),
        exists|ids: Seq<Seq<char>>|
            ids_fit(tasks@, ids) && c.args_view() == seq![
                ArgView::Int(ttl_secs(config.idempotency_ttl)),
            ] + #[trigger] pushes_args(tasks@, ids, now),
        c.args_view().len() == 1 + 7 * tasks@.len(),
        c.args_view()[0] == ArgView::Int(ttl_secs(config.idempotency_ttl)),
        forall|i: int|
            #![trigger push_group(c.args_view().skip(1), i)]
            0 <= i < tasks@.len() ==> {
                &&& match tasks@[i].task_id {
                    Some(x) => push_group(c.args_view().skip(1), i)[0] == ArgView::Text(x@),
                    None => push_group(c.args_view().skip(1), i)[0] matches ArgView::Text(u)
                        && is_ulid_text(u),
                }
                &&& push_group(c.args_view().skip(1), i)[1] == ArgView::Bytes(tasks@[i].args@)
                &&& push_group(c.args_view().skip(1), i)[2] == ArgView::Int(
                    (tasks@[i].attempt as u32) as u64,
                )
                &&& push_group(c.args_view().skip(1), i)[3] == ArgView::Int(
                    max_attempts_of(tasks@[i]),
                )
                &&& push_group(c.args_view().skip(1), i)[4] == ArgView::Text(tasks@[i].metadata@)
                &&& push_group(c.args_view().skip(1), i)[5] == ArgView::Int(
                    scheduled_at(tasks@[i], now),
                )
                &&& push_group(c.args_view().skip(1), i)[6] == ArgView::Text(
                    idempotency_key_of(tasks@[i]),
                )
            },
{
    let mut c = ScriptCall::new(Script::BatchPush);
    c.key(config.job_data_hash());
    c.key(config.active_jobs_list());
    c.key(config.signal_list());
    c.key(config.job_meta_hash());
    c.key(config.scheduled_jobs_set());
    c.key(config.idempotency_key_set());
    c.arg(ScriptArg::Int(idempotency_ttl_secs(&config.idempotency_ttl)));
    let ghost keys = c.keys_view();
    assert(keys =~= batch_push_keys(*config));
    let ghost head = c.args_view();
    assert(head =~= seq![ArgView::Int(ttl_secs(config.idempotency_ttl))]);
    assert(pushes_args(tasks@.take(0), Seq::empty(), now) =~= Seq::<ArgView>::empty());
    let ghost mut ids: Seq<Seq<char>> = Seq::empty();
    let mut i: usize = 0;
    while i < tasks.len()
        invariant
            i <= tasks@.len(),
            c.script == Script::BatchPush,
            c.keys_view() == keys,
            ids_fit(tasks@.take(i as int), ids),
            head == seq![ArgView::Int(ttl_secs(config.idempotency_ttl))],
            c.args_view() == head + pushes_args(tasks@.take(i as int), ids, now),
        decreases tasks@.len() - i,
    {
        let ghost before = c.args_view();
        let Ghost(id) = add_task_args(&mut c, &tasks[i], now);
        proof {
            let ts = tasks@.take(i + 1);
            let new_ids = ids.push(id);
            assert(ts.drop_last() =~= tasks@.take(i as int));
            assert(new_ids.drop_last() =~= ids);
            assert forall|k: int| 0 <= k < ts.len() implies match (#[trigger] ts[k]).task_id {
                Some(x) => new_ids[k] == x@,
                None => is_ulid_text(new_ids[k]),
            } by {
                if k < i {
                    assert(ts[k] == tasks@.take(i as int)[k]);
                }
            }
            assert(c.args_view() =~= head + pushes_args(ts, new_ids, now));
            ids = new_ids;
        }
        i = i + 1;
    }
    assert(tasks@.take(i as int) =~= tasks@);
    proof {
        lemma_pushes_args_layout(tasks@, ids, now);
        assert(c.args_view().skip(1) =~= pushes_args(tasks@, ids, now));
        assert forall|k: int| 0 <= k < tasks@.len() implies match (#[trigger] tasks@[k]).task_id {
            Some(x) => ids[k] == x@,
            None => is_ulid_text(ids[k]),
        } by {}
    }
    c
}

} // verus!
