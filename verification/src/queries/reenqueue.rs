//! Re-queueing the tasks of workers that stopped sending heartbeats.
use vstd::prelude::*;

use crate::config::{queue_key, Config};
use crate::script::{ArgView, Script, ScriptArg, ScriptCall};

verus! {

/// Which workers a query is about.
#[derive(Clone, Debug)]
pub enum WorkerFilter {
    /// All workers but the one named.
    AllExcept(String),
    /// Only the worker named.
    Only(String),
    /// All workers.
    Any,
}

/// The worker that a filter singles out, if it singles out one.
pub open spec fn only_name(filter: WorkerFilter) -> Option<Seq<char>> {
    match filter {
        WorkerFilter::Only(name) => Some(name@),
        _ => None,
    }
}

/// How long, in seconds, a worker must have been silent to count as gone:
/// one heartbeat interval when a single worker is singled out, the orphan
/// timeout otherwise.
pub open spec fn silence_secs(config: Config, only: Option<Seq<char>>) -> nat {
    match only {
        Some(_) => config.heartbeat_interval.secs_part() as nat,
        None => config.orphaned_secs(),
    }
}

/// `c` re-queues, at time `now`, the tasks of the workers that have been
/// silent for `silence_secs`: of the worker `only` names if it names one.
pub open spec fn is_reenqueue_call(
    c: ScriptCall,
    config: Config,
    only: Option<Seq<char>>,
    now: u64,
) -> bool {
    &&& c.script == Script::ReenqueueOrphaned
    &&& c.keys_view() == seq![
        queue_key(config.queue@, ":workers"@),
        queue_key(config.queue@, ":active"@),
        queue_key(config.queue@, ":signal"@),
    ]
    &&& c.args_view() == match only {
        Some(name) => seq![
            ArgView::Int((now - silence_secs(config, only)) as u64),
            ArgView::Text(name),
        ],
        None => seq![ArgView::Int((now - silence_secs(config, only)) as u64)],
    }
}

/// The invocation that, at time `now`, re-queues the tasks of the workers
/// that `filter` selects and that have been silent for `silence_secs`.
pub fn reenqueue_orphaned_call(config: &Config, filter: &WorkerFilter, now: u64) -> (c: ScriptCall)
    requires
        filter is Only || config.orphaned_duration_fits(),
        now >= silence_secs(*config, only_name(*filter)),
    ensures
        is_reenqueue_call(c, *config, only_name(*filter), now),
{
    let mut c = ScriptCall::new(Script::ReenqueueOrphaned);
    c.key(config.workers_set());
    c.key(config.active_jobs_list());
    c.key(config.signal_list());
    match filter {
        WorkerFilter::Only(name) => {
            let dead_for = config.heartbeat_interval.as_secs();
            c.arg(ScriptArg::Int(now - dead_for));
            c.arg(ScriptArg::Text(name.clone()));
            assert(c.args_view() =~= seq![
                ArgView::Int((now - silence_secs(*config, only_name(*filter))) as u64),
                ArgView::Text(name@),
            ]);
        },
        _ => {
            let dead_for = config.orphaned_secs_exec();
            c.arg(ScriptArg::Int(now - dead_for));
            assert(c.args_view() =~= seq![
                ArgView::Int((now - silence_secs(*config, only_name(*filter))) as u64),
            ]);
        },
    }
    assert(c.keys_view() =~= seq![
        queue_key(config.queue@, ":workers"@),
        queue_key(config.queue@, ":active"@),
        queue_key(config.queue@, ":signal"@),
    ]);
    c
}

} // verus!
