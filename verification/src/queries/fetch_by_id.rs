//! Fetching one task by its identifier.
use vstd::prelude::*;

use crate::config::{queue_key, Config};
use crate::decode::{decode_reply, deserialize_with_meta, CompactTask, RespValue};
use crate::error::Error;
use crate::script::{ArgView, Script, ScriptArg, ScriptCall};

verus! {

/// `c` hands back the task whose identifier reads `task_id`.
pub open spec fn is_fetch_by_id_call(c: ScriptCall, config: Config, task_id: Seq<char>) -> bool {
    &&& c.script == Script::FetchById
    &&& c.keys_view() == seq![
        queue_key(config.queue@, ":data"@),
        queue_key(config.queue@, ":meta"@),
    ]
    &&& c.args_view() == seq![ArgView::Text(task_id)]
}

/// The invocation that hands back the task whose identifier reads
/// `task_id`.
pub fn fetch_by_id_call(config: &Config, task_id: &str) -> (c: ScriptCall)
    ensures
        is_fetch_by_id_call(c, *config, task_id@),
{
    let mut c = ScriptCall::new(Script::FetchById);
    c.key(config.job_data_hash());
    c.key(config.job_meta_hash());
    c.arg(ScriptArg::Text(task_id.to_owned()));
    assert(c.keys_view() =~= seq![
        queue_key(config.queue@, ":data"@),
        queue_key(config.queue@, ":meta"@),
    ]);
    assert(c.args_view() =~= seq![ArgView::Text(task_id@)]);
    c
}

/// The task in a reply to `fetch_by_id_call`: a server error is an error; a
/// list is decoded and its first task, if any, is the answer; any other
/// reply means that there is no such task.
pub fn fetch_by_id_reply(reply: RespValue) -> (r: Result<Option<CompactTask>, Error>)
    ensures
        match r {
            Ok(Some(t)) => reply matches RespValue::Array(data) && decode_reply(data@) matches Ok(
                ts,
            ) && ts.len() > 0 && ts[0] == t@,
            Ok(None) => (reply matches RespValue::Array(data) && decode_reply(data@) matches Ok(ts)
                && ts.len() == 0) || (!(reply is Array) && !(reply is ServerError)),
            Err(Error::Server(msg)) => reply matches RespValue::ServerError(m) && m@ == msg@,
            Err(Error::Decode(e)) => reply matches RespValue::Array(data) && decode_reply(data@)
                == Err::<Seq<crate::decode::CompactTaskView>, crate::decode::DecodeFailure>(e@),
            Err(_) => false,
        },
{
    match reply {
        RespValue::ServerError(msg) => Err(Error::Server(msg)),
        RespValue::Array(data) => {
            let ghost d = data@;
            match deserialize_with_meta(data) {
                Ok(tasks) => {
                    let mut tasks = tasks;
                    if tasks.len() > 0 {
                        let t = tasks.swap_remove(0);
                        Ok(Some(t))
                    } else {
                        Ok(None)
                    }
                },
                Err(e) => Err(Error::Decode(e)),
            }
        },
        _ => Ok(None),
    }
}

} // verus!
