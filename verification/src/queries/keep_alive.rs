//! A worker's heartbeat.
use vstd::prelude::*;

use crate::config::{queue_key, Config};
use crate::queries::fetch_next::is_fetch_next_call;
use crate::queries::reenqueue::is_reenqueue_call;
use crate::queries::task_lease::is_acquire_leases_call;
use crate::script::{ArgView, Script, ScriptArg, ScriptCall};

verus! {

/// `c` records at time `now` a heartbeat of the worker named `worker`.
pub open spec fn is_keep_alive_call(c: ScriptCall, config: Config, worker: Seq<char>, now: u64) -> bool {
    &&& c.script == Script::KeepAlive
    &&& c.keys_view() == seq![queue_key(config.queue@, ":workers"@)]
    &&& c.args_view() == seq![
        ArgView::Int(now),
        ArgView::Text(queue_key(config.queue@, ":inflight"@) + ":"@ + worker),
    ]
}

/// The invocation that records at time `now` a heartbeat of the worker named
/// `worker_name`.
pub fn keep_alive_call(config: &Config, worker_name: &str, now: u64) -> (c: ScriptCall)
    ensures
        is_keep_alive_call(c, *config, worker_name@, now),
{
    let mut c = ScriptCall::new(Script::KeepAlive);
    c.key(config.workers_set());
    c.arg(ScriptArg::Int(now));
    c.arg(ScriptArg::Text(config.inflight_worker_id(worker_name)));
    assert(c.keys_view() =~= seq![queue_key(config.queue@, ":workers"@)]);
    assert(c.args_view() =~= seq![
        ArgView::Int(now),
        ArgView::Text(queue_key(config.queue@, ":inflight"@) + ":"@ + worker_name@),
    ]);
    c
}

/// A heartbeat keeps alive the very entry under which a fetch registers the
/// worker: both touch the same workers set, the member that the heartbeat
/// refreshes is the one that the fetch records for the same worker, and it
/// names the inflight set in which that worker's tasks are locked. A worker
/// that beats is thus never taken for an orphan while it runs tasks.
pub proof fn lemma_heartbeat_refreshes_fetching_worker(
    config: Config,
    worker: Seq<char>,
    beat: ScriptCall,
    beat_at: u64,
    fetch: ScriptCall,
    fetch_at: u64,
    lock: ScriptCall,
    ids: Seq<Seq<char>>,
    lock_at: u64,
)
    requires
        is_keep_alive_call(beat, config, worker, beat_at),
        is_fetch_next_call(fetch, config, worker, fetch_at),
        is_acquire_leases_call(lock, config, worker, ids, lock_at),
    ensures
        beat.keys_view()[0] == fetch.keys_view()[0],
        beat.args_view()[1] == fetch.args_view()[2],
        beat.args_view()[1] == ArgView::Text(lock.keys_view()[0]),
{
}

/// The search for orphans reads the heartbeats where they are written: it
/// looks in the same workers set that a heartbeat refreshes.
pub proof fn lemma_orphan_search_reads_heartbeats(
    config: Config,
    worker: Seq<char>,
    beat: ScriptCall,
    beat_at: u64,
    search: ScriptCall,
    only: Option<Seq<char>>,
    now: u64,
)
    requires
        is_keep_alive_call(beat, config, worker, beat_at),
        is_reenqueue_call(search, config, only, now),
    ensures
        search.keys_view()[0] == beat.keys_view()[0],
{
}

} // verus!
