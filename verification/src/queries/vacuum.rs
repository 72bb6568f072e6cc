//! Removing finished tasks.
use vstd::prelude::*;

use crate::config::{queue_key, Config};
use crate::script::{ArgView, Script, ScriptCall};

verus! {

/// The invocation that removes the finished tasks of the queue.
pub fn vacuum_call(config: &Config) -> (c: ScriptCall)
    ensures
        c.script == Script::Vacuum,
        c.keys_view() == seq![
            queue_key(config.queue@, ":data"@),
            queue_key(config.queue@, ":meta"@),
        ],
        c.args_view() == Seq::<ArgView>::empty(),
{
    let mut c = ScriptCall::new(Script::Vacuum);
    c.key(config.job_data_hash());
    c.key(config.job_meta_hash());
    c
}

} // verus!
