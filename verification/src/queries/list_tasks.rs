//! Listing tasks, page by page.
use vstd::prelude::*;

use crate::config::{queue_key, Config};
use crate::decode::{
    decode_reply, deserialize_with_meta, tasks_view, CompactTask, CompactTaskView, DecodeFailure,
    RespValue,
};
use crate::error::Error;
use crate::script::{ArgView, Script, ScriptArg, ScriptCall};
use crate::status::{status_text, TaskStatus};

verus! {

/// Which tasks to list.
#[derive(Clone, Debug)]
pub struct TaskFilter {
    /// Only tasks in this state, if given.
    pub status: Option<TaskStatus>,
    /// The page to list.
    pub page: u32,
    /// The number of tasks on a page; 10 when not given.
    pub page_size: Option<u32>,
}

/// The arguments that select the tasks of a filter: the state's name (empty
/// when no state is given), the page and the page size.
pub open spec fn filter_args(filter: TaskFilter) -> Seq<ArgView> {
    seq![
        ArgView::Text(
            match filter.status {
                Some(s) => status_text(s),
                None => Seq::empty(),
            },
        ),
        ArgView::Int(filter.page as u64),
        ArgView::Int(
            match filter.page_size {
                Some(n) => n as u64,
                None => 10,
            },
        ),
    ]
}

/// Adds the arguments of a filter.
fn add_filter_args(c: &mut ScriptCall, filter: &TaskFilter)
    ensures
        final(c).script == old(c).script,
        final(c).keys_view() == old(c).keys_view(),
        final(c).args_view() == old(c).args_view() + filter_args(*filter),
{
    let status = match filter.status {
        Some(s) => s.name().to_owned(),
        None => String::new(),
    };
    c.arg(ScriptArg::Text(status));
    c.arg(ScriptArg::Int(filter.page as u64));
    let page_size: u32 = match filter.page_size {
        Some(n) => n,
        None => 10,
    };
    c.arg(ScriptArg::Int(page_size as u64));
    assert(c.args_view() =~= old(c).args_view() + filter_args(*filter));
}

/// The invocation that lists the tasks of the queue that `filter` selects.
pub fn list_tasks_call(config: &Config, filter: &TaskFilter) -> (c: ScriptCall)
    ensures
        c.script == Script::ListTasks,
        c.keys_view() == seq![
            queue_key(config.queue@, ":data"@),
            queue_key(config.queue@, ":meta"@),
            config.queue@,
        ],
        c.args_view() == filter_args(*filter),
{
    let mut c = ScriptCall::new(Script::ListTasks);
    c.key(config.job_data_hash());
    c.key(config.job_meta_hash());
    c.key(config.queue.clone());
    add_filter_args(&mut c, filter);
    assert(c.args_view() =~= filter_args(*filter));
    c
}

/// The invocation that lists the tasks of all queues that `filter` selects.
pub fn list_all_tasks_call(config: &Config, filter: &TaskFilter) -> (c: ScriptCall)
    ensures
        c.script == Script::ListAllTasks,
        c.keys_view() == seq![
            queue_key(config.queue@, ":data"@),
            queue_key(config.queue@, ":meta"@),
        ],
        c.args_view() == filter_args(*filter),
{
    let mut c = ScriptCall::new(Script::ListAllTasks);
    c.key(config.job_data_hash());
    c.key(config.job_meta_hash());
    add_filter_args(&mut c, filter);
    assert(c.args_view() =~= filter_args(*filter));
    c
}

/// The tasks in a reply to a listing: a list is decoded; any other reply
/// lists no tasks.
pub fn list_tasks_reply(reply: RespValue) -> (r: Result<Vec<CompactTask>, Error>)
    ensures
        match r {
            Ok(tasks) => (reply matches RespValue::Array(data) && decode_reply(data@) == Ok::<
                Seq<CompactTaskView>,
                DecodeFailure,
            >(tasks_view(tasks@))) || (!(reply is Array) && tasks@.len() == 0),
            Err(Error::Decode(e)) => reply matches RespValue::Array(data) && decode_reply(data@)
                == Err::<Seq<CompactTaskView>, DecodeFailure>(e@),
            Err(_) => false,
        },
{
    match reply {
        RespValue::Array(data) => match deserialize_with_meta(data) {
            Ok(tasks) => Ok(tasks),
            Err(e) => Err(Error::Decode(e)),
        },
        _ => Ok(Vec::new()),
    }
}

} // verus!
