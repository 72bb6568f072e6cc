//! Registering a worker.
use vstd::prelude::*;

use crate::config::{queue_key, Config};
use crate::queries::list_workers::is_list_workers_call;
use crate::script::{ArgView, Script, ScriptArg, ScriptCall};

verus! {

/// `c` registers at time `now` the worker named `worker`, which runs the
/// service described by `service`, to expire after the orphan timeout.
pub open spec fn is_register_worker_call(
    c: ScriptCall,
    config: Config,
    worker: Seq<char>,
    service: Seq<char>,
    now: u64,
) -> bool {
    &&& c.script == Script::RegisterWorker
    &&& c.keys_view() == seq![
        queue_key(config.queue@, ":workers"@),
        queue_key(config.queue@, ":workers:"@),
    ]
    &&& c.args_view() == seq![
        ArgView::Int(now),
        ArgView::Text(worker),
        ArgView::Int(config.orphaned_secs() as u64),
        ArgView::Text("RedisStorage"@),
        ArgView::Text(service),
    ]
}

/// The invocation that registers at time `now` the worker named
/// `worker_name`, which runs the service described by `service`; the worker
/// expires after the orphan timeout.
pub fn register_worker_call(config: &Config, worker_name: &str, service: &str, now: u64) -> (c:
    ScriptCall)
    requires
        config.orphaned_duration_fits(),
    ensures
        is_register_worker_call(c, *config, worker_name@, service@, now),
{
    let mut c = ScriptCall::new(Script::RegisterWorker);
    c.key(config.workers_set());
    c.key(config.worker_metadata_key());
    c.arg(ScriptArg::Int(now));
    c.arg(ScriptArg::Text(worker_name.to_owned()));
    c.arg(ScriptArg::Int(config.orphaned_secs_exec()));
    c.arg(ScriptArg::Text("RedisStorage".to_owned()));
    c.arg(ScriptArg::Text(service.to_owned()));
    assert(c.keys_view() =~= seq![
        queue_key(config.queue@, ":workers"@),
        queue_key(config.queue@, ":workers:"@),
    ]);
    assert(c.args_view() =~= seq![
        ArgView::Int(now),
        ArgView::Text(worker_name@),
        ArgView::Int(config.orphaned_secs() as u64),
        ArgView::Text("RedisStorage"@),
        ArgView::Text(service@),
    ]);
    c
}

/// A registered worker is found where the listing looks: the registration
/// adds the worker to the same workers set that the listing reads, and
/// writes its metadata under the same key prefix that the listing reads it
/// from, a key apart from the workers set itself.
pub proof fn lemma_registered_worker_is_listed(
    config: Config,
    worker: Seq<char>,
    service: Seq<char>,
    now: u64,
    register: ScriptCall,
    list: ScriptCall,
)
    requires
        is_register_worker_call(register, config, worker, service, now),
        is_list_workers_call(list, config),
    ensures
        register.keys_view()[0] == list.keys_view()[0],
        register.keys_view()[1] == list.keys_view()[1],
        register.keys_view()[1] != register.keys_view()[0],
{
    reveal_strlit(":workers");
    reveal_strlit(":workers:");
    assert(register.keys_view()[1].len() != register.keys_view()[0].len());
}

} // verus!
