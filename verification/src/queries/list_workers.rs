//! Listing workers.
use vstd::prelude::*;

use crate::config::{queue_key, Config};
use crate::script::{ArgView, Script, ScriptCall};

verus! {

/// `c` lists the workers of the queue: the set of workers and the prefix of
/// the keys of their metadata.
pub open spec fn is_list_workers_call(c: ScriptCall, config: Config) -> bool {
    &&& c.script == Script::ListWorkers
    &&& c.keys_view() == seq![
        queue_key(config.queue@, ":workers"@),
        queue_key(config.queue@, ":workers:"@),
    ]
    &&& c.args_view() == Seq::<ArgView>::empty()
}

/// The invocation that lists the workers of the queue.
pub fn list_workers_call(config: &Config) -> (c: ScriptCall)
    ensures
        is_list_workers_call(c, *config),
{
    let mut c = ScriptCall::new(Script::ListWorkers);
    c.key(config.workers_set());
    c.key(config.worker_metadata_key());
    assert(c.keys_view() =~= seq![
        queue_key(config.queue@, ":workers"@),
        queue_key(config.queue@, ":workers:"@),
    ]);
    assert(c.args_view() =~= Seq::<ArgView>::empty());
    c
}

/// The invocation that lists the workers of all queues.
pub fn list_all_workers_call() -> (c: ScriptCall)
    ensures
        c.script == Script::ListAllWorkers,
        c.keys_view() == Seq::<Seq<char>>::empty(),
        c.args_view() == Seq::<ArgView>::empty(),
{
    ScriptCall::new(Script::ListAllWorkers)
}

} // verus!
