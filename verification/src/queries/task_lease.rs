//! Locking tasks for a worker, extending and releasing the locks.
use vstd::prelude::*;

use crate::config::{queue_key, Config};
use crate::queries::fetch_next::is_fetch_next_call;
use crate::queries::handle_results::{is_handle_results_call, AckPayload};
use crate::queries::{add_text_args, text_args};
use crate::script::{texts_view, ArgView, Script, ScriptArg, ScriptCall};

verus! {

/// `c` locks, at time `now`, the tasks whose identifiers read `ids` for the
/// worker named `worker`.
pub open spec fn is_acquire_leases_call(
    c: ScriptCall,
    config: Config,
    worker: Seq<char>,
    ids: Seq<Seq<char>>,
    now: u64,
) -> bool {
    &&& c.script == Script::AcquireLeases
    &&& c.keys_view() == seq![
        queue_key(config.queue@, ":inflight"@) + ":"@ + worker,
        queue_key(config.queue@, ":workers"@),
        queue_key(config.queue@, ":meta"@),
        queue_key(config.queue@, ":active"@),
    ]
    &&& c.args_view() == seq![
        ArgView::Text(worker),
        ArgView::Int(now),
        ArgView::Flag(config.emit_events),
    ] + text_args(ids)
}

/// The invocation that locks, at time `now`, the tasks whose identifiers
/// read `task_ids` for the worker named `worker_name`; none when there are no
/// tasks.
pub fn acquire_leases_call(
    config: &Config,
    worker_name: &str,
    task_ids: &Vec<String>,
    now: u64,
) -> (r: Option<ScriptCall>)
    ensures
        r is None <==> task_ids@.len() == 0,
        r matches Some(c) ==> is_acquire_leases_call(
            c,
            *config,
            worker_name@,
            texts_view(task_ids@),
            now,
        ),
{
    if task_ids.len() == 0 {
        return None;
    }
    let mut c = ScriptCall::new(Script::AcquireLeases);
    c.key(config.inflight_worker_id(worker_name));
    c.key(config.workers_set());
    c.key(config.job_meta_hash());
    c.key(config.active_jobs_list());
    c.arg(ScriptArg::Text(worker_name.to_owned()));
    c.arg(ScriptArg::Int(now));
    c.arg(ScriptArg::Flag(config.emit_events));
    add_text_args(&mut c, task_ids);
    assert(c.keys_view() =~= seq![
        queue_key(config.queue@, ":inflight"@) + ":"@ + worker_name@,
        queue_key(config.queue@, ":workers"@),
        queue_key(config.queue@, ":meta"@),
        queue_key(config.queue@, ":active"@),
    ]);
    assert(c.args_view() =~= seq![
        ArgView::Text(worker_name@),
        ArgView::Int(now),
        ArgView::Flag(config.emit_events),
    ] + text_args(texts_view(task_ids@)));
    Some(c)
}

/// `c` extends, at time `now`, the locks that the worker named `worker`
/// holds on the tasks whose identifiers read `ids`.
pub open spec fn is_renew_leases_call(
    c: ScriptCall,
    config: Config,
    worker: Seq<char>,
    ids: Seq<Seq<char>>,
    now: u64,
) -> bool {
    &&& c.script == Script::RenewLeases
    &&& c.keys_view() == seq![
        queue_key(config.queue@, ":inflight"@) + ":"@ + worker,
        queue_key(config.queue@, ":workers"@),
        queue_key(config.queue@, ":meta"@),
    ]
    &&& c.args_view() == seq![
        ArgView::Text(worker),
        ArgView::Int(now),
        ArgView::Flag(config.emit_events),
    ] + text_args(ids)
}

/// The invocation that extends, at time `now`, the locks that the worker
/// named `worker_name` holds on the tasks whose identifiers read
/// `task_ids`; none when the worker runs no tasks.
pub fn renew_leases_call(config: &Config, worker_name: &str, task_ids: &Vec<String>, now: u64) -> (r:
    Option<ScriptCall>)
    ensures
        r is None <==> task_ids@.len() == 0,
        r matches Some(c) ==> is_renew_leases_call(
            c,
            *config,
            worker_name@,
            texts_view(task_ids@),
            now,
        ),
{
    if task_ids.len() == 0 {
        return None;
    }
    let mut c = ScriptCall::new(Script::RenewLeases);
    c.key(config.inflight_worker_id(worker_name));
    c.key(config.workers_set());
    c.key(config.job_meta_hash());
    c.arg(ScriptArg::Text(worker_name.to_owned()));
    c.arg(ScriptArg::Int(now));
    c.arg(ScriptArg::Flag(config.emit_events));
    add_text_args(&mut c, task_ids);
    assert(c.keys_view() =~= seq![
        queue_key(config.queue@, ":inflight"@) + ":"@ + worker_name@,
        queue_key(config.queue@, ":workers"@),
        queue_key(config.queue@, ":meta"@),
    ]);
    assert(c.args_view() =~= seq![
        ArgView::Text(worker_name@),
        ArgView::Int(now),
        ArgView::Flag(config.emit_events),
    ] + text_args(texts_view(task_ids@)));
    Some(c)
}

/// A renewal extends the locks in the set where the worker took them: its
/// first key is the inflight set that locking uses for the same worker, the
/// set that a fetch records for that worker, and never the inflight set of
/// the whole queue.
pub proof fn lemma_renewal_extends_own_locks(
    config: Config,
    worker: Seq<char>,
    renew: ScriptCall,
    renewed: Seq<Seq<char>>,
    renew_at: u64,
    lock: ScriptCall,
    locked: Seq<Seq<char>>,
    lock_at: u64,
    fetch: ScriptCall,
    fetch_at: u64,
)
    requires
        is_renew_leases_call(renew, config, worker, renewed, renew_at),
        is_acquire_leases_call(lock, config, worker, locked, lock_at),
        is_fetch_next_call(fetch, config, worker, fetch_at),
    ensures
        renew.keys_view()[0] == lock.keys_view()[0],
        ArgView::Text(renew.keys_view()[0]) == fetch.args_view()[2],
        renew.keys_view()[0] != fetch.keys_view()[2],
{
    reveal_strlit(":");
    assert(renew.keys_view()[0].len() != fetch.keys_view()[2].len());
}

/// `c` releases the locks that the worker named `worker` holds on the tasks
/// whose identifiers read `ids`, and re-queues those tasks.
pub open spec fn is_release_leases_call(
    c: ScriptCall,
    config: Config,
    worker: Seq<char>,
    ids: Seq<Seq<char>>,
) -> bool {
    &&& c.script == Script::ReleaseLeases
    &&& c.keys_view() == seq![
        queue_key(config.queue@, ":inflight"@) + ":"@ + worker,
        queue_key(config.queue@, ":active"@),
        queue_key(config.queue@, ":signal"@),
        queue_key(config.queue@, ":workers"@),
        queue_key(config.queue@, ":meta"@),
    ]
    &&& c.args_view() == seq![ArgView::Flag(config.emit_events)] + text_args(ids)
}

/// The invocation that releases the locks that the worker named
/// `worker_name` holds on the tasks whose identifiers read `task_ids`, and
/// re-queues those tasks.
pub fn release_leases_call(config: &Config, worker_name: &str, task_ids: &Vec<String>) -> (c:
    ScriptCall)
    ensures
        is_release_leases_call(c, *config, worker_name@, texts_view(task_ids@)),
{
    let mut c = ScriptCall::new(Script::ReleaseLeases);
    c.key(config.inflight_worker_id(worker_name));
    c.key(config.active_jobs_list());
    c.key(config.signal_list());
    c.key(config.workers_set());
    c.key(config.job_meta_hash());
    c.arg(ScriptArg::Flag(config.emit_events));
    add_text_args(&mut c, task_ids);
    assert(c.keys_view() =~= seq![
        queue_key(config.queue@, ":inflight"@) + ":"@ + worker_name@,
        queue_key(config.queue@, ":active"@),
        queue_key(config.queue@, ":signal"@),
        queue_key(config.queue@, ":workers"@),
        queue_key(config.queue@, ":meta"@),
    ]);
    assert(c.args_view() =~= seq![ArgView::Flag(config.emit_events)] + text_args(
        texts_view(task_ids@),
    ));
    c
}

/// The locks of a worker live in one set: locking, releasing and recording
/// results all name, as their first key, the inflight set that a fetch
/// records for the same worker.
pub proof fn lemma_locks_share_worker_set(
    config: Config,
    worker: Seq<char>,
    lock: ScriptCall,
    locked: Seq<Seq<char>>,
    lock_at: u64,
    release: ScriptCall,
    released: Seq<Seq<char>>,
    done: ScriptCall,
    results: Seq<AckPayload>,
    done_at: u64,
    fetch: ScriptCall,
    fetch_at: u64,
)
    requires
        is_acquire_leases_call(lock, config, worker, locked, lock_at),
        is_release_leases_call(release, config, worker, released),
        is_handle_results_call(done, config, worker, results, done_at),
        is_fetch_next_call(fetch, config, worker, fetch_at),
    ensures
        release.keys_view()[0] == lock.keys_view()[0],
        done.keys_view()[0] == lock.keys_view()[0],
        ArgView::Text(lock.keys_view()[0]) == fetch.args_view()[2],
{
}

} // verus!
