//! Fetching the next batch of jobs for a worker.
use vstd::prelude::*;

use crate::config::{queue_key, Config};
use crate::script::{ArgView, Script, ScriptArg, ScriptCall};

verus! {

/// `c` moves up to a batch of due jobs to the worker named `worker` at time
/// `now` and hands back their payloads and metadata. The worker is recorded
/// under the key of its own inflight set.
pub open spec fn is_fetch_next_call(c: ScriptCall, config: Config, worker: Seq<char>, now: u64) -> bool {
    &&& c.script == Script::FetchNext
    &&& c.keys_view() == seq![
        queue_key(config.queue@, ":workers"@),
        queue_key(config.queue@, ":active"@),
        queue_key(config.queue@, ":inflight"@),
        queue_key(config.queue@, ":data"@),
        queue_key(config.queue@, ":signal"@),
        queue_key(config.queue@, ":meta"@),
        queue_key(config.queue@, ":scheduled"@),
    ]
    &&& c.args_view() == seq![
        ArgView::Int(now),
        ArgView::Int(config.batch_size as u64),
        ArgView::Text(queue_key(config.queue@, ":inflight"@) + ":"@ + worker),
    ]
}

/// The invocation that moves up to a batch of due jobs to the worker named
/// `worker_name` at time `now` and hands back their payloads and metadata.
pub fn fetch_next_call(config: &Config, worker_name: &str, now: u64) -> (c: ScriptCall)
    ensures
        is_fetch_next_call(c, *config, worker_name@, now),
{
    let mut c = ScriptCall::new(Script::FetchNext);
    c.key(config.workers_set());
    c.key(config.active_jobs_list());
    c.key(config.inflight_jobs_set());
    c.key(config.job_data_hash());
    c.key(config.signal_list());
    c.key(config.job_meta_hash());
    c.key(config.scheduled_jobs_set());
    c.arg(ScriptArg::Int(now));
    c.arg(ScriptArg::Int(config.batch_size as u64));
    c.arg(ScriptArg::Text(config.inflight_worker_id(worker_name)));
    assert(c.keys_view() =~= seq![
        queue_key(config.queue@, ":workers"@),
        queue_key(config.queue@, ":active"@),
        queue_key(config.queue@, ":inflight"@),
        queue_key(config.queue@, ":data"@),
        queue_key(config.queue@, ":signal"@),
        queue_key(config.queue@, ":meta"@),
        queue_key(config.queue@, ":scheduled"@),
    ]);
    assert(c.args_view() =~= seq![
        ArgView::Int(now),
        ArgView::Int(config.batch_size as u64),
        ArgView::Text(queue_key(config.queue@, ":inflight"@) + ":"@ + worker_name@),
    ]);
    c
}

} // verus!
