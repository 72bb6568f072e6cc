//! Statistics of queues.
use vstd::prelude::*;

use crate::config::{queue_key, Config};
use crate::script::{texts_view, ArgView, Script, ScriptArg, ScriptCall};

verus! {

/// The key of the registry of queues, which the global statistics read in
/// full.
pub fn queues_key() -> (k: String)
    ensures
        k@ == "core:apalis:queues"@,
{
    "core:apalis:queues".to_owned()
}

/// The invocation that gathers at time `now` the statistics of the queues
/// named `queues`.
pub fn overview_call(queues: &Vec<String>, now: u64) -> (c: ScriptCall)
    ensures
        c.script == Script::Overview,
        c.keys_view() == texts_view(queues@),
        c.args_view() == seq![ArgView::Int(now)],
{
    let mut c = ScriptCall::new(Script::Overview);
    c.arg(ScriptArg::Int(now));
    let mut i: usize = 0;
    while i < queues.len()
        invariant
            i <= queues@.len(),
            c.script == Script::Overview,
            c.keys_view() == texts_view(queues@.take(i as int)),
            c.args_view() == seq![ArgView::Int(now)],
        decreases queues@.len() - i,
    {
        c.key(queues[i].clone());
        assert(texts_view(queues@.take(i + 1)) =~= texts_view(queues@.take(i as int)).push(
            queues@[i as int]@,
        ));
        i = i + 1;
    }
    assert(queues@.take(i as int) =~= queues@);
    c
}

/// The invocation that gathers the statistics of the queue: its pending,
/// done, dead and inflight jobs.
pub fn fetch_by_queue_call(config: &Config) -> (c: ScriptCall)
    ensures
        c.script == Script::OverviewByQueue,
        c.keys_view() == seq![
            queue_key(config.queue@, ":active"@),
            queue_key(config.queue@, ":done"@),
            queue_key(config.queue@, ":dead"@),
            queue_key(config.queue@, ":inflight"@),
        ],
        c.args_view() == Seq::<ArgView>::empty(),
{
    let mut c = ScriptCall::new(Script::OverviewByQueue);
    c.key(config.active_jobs_list());
    c.key(config.done_jobs_set());
    c.key(config.dead_jobs_set());
    c.key(config.inflight_jobs_set());
    c
}

} // verus!
