//! The queries of the queue: the script invocations that they send and what
//! they make of the replies.
use vstd::prelude::*;

use crate::clock::{since_unix_epoch, system_now};
use crate::script::{texts_view, ArgView, ScriptArg, ScriptCall};

pub mod fetch_by_id;
pub mod fetch_next;
pub mod handle_results;
pub mod keep_alive;
pub mod list_queues;
pub mod list_tasks;
pub mod list_workers;
pub mod metrics;
pub mod push_tasks;
pub mod reenqueue;
pub mod register_worker;
pub mod task_lease;
pub mod vacuum;
pub mod wait_for;

verus! {

/// The timestamp of a clock reading taken as the time elapsed since the Unix
/// epoch (whole seconds and nanoseconds): its whole seconds, or 0 when the
/// reading lies before the epoch.
pub fn timestamp_from_elapsed(elapsed: Option<(u64, u32)>) -> (secs: u64)
    ensures
        secs == match elapsed {
            Some((s, _)) => s,
            None => 0,
        },
{
    match elapsed {
        Some((s, _)) => s,
        None => 0,
    }
}

/// The current time in whole seconds since the Unix epoch, or 0 when the
/// clock reads a time before the epoch.
pub fn current_timestamp() -> (secs: u64) {
    timestamp_from_elapsed(since_unix_epoch(&system_now()))
}

/// Texts as text arguments, in order.
pub open spec fn text_args(texts: Seq<Seq<char>>) -> Seq<ArgView> {
    texts.map_values(|s: Seq<char>| ArgView::Text(s))
}

/// Adds each of `texts`, in order, as a text argument.
pub fn add_text_args(c: &mut ScriptCall, texts: &Vec<String>)
    ensures
        final(c).script == old(c).script,
        final(c).keys_view() == old(c).keys_view(),
        final(c).args_view() == old(c).args_view() + text_args(texts_view(texts@)),
{
    let mut i: usize = 0;
    while i < texts.len()
        invariant
            i <= texts@.len(),
            c.script == old(c).script,
            c.keys_view() == old(c).keys_view(),
            c.args_view() == old(c).args_view() + text_args(texts_view(texts@.take(i as int))),
        decreases texts@.len() - i,
    {
        let ghost before = c.args_view();
        c.arg(ScriptArg::Text(texts[i].clone()));
        assert(texts_view(texts@.take(i + 1)) =~= texts_view(texts@.take(i as int)).push(
            texts@[i as int]@,
        ));
        assert(text_args(texts_view(texts@.take(i + 1))) =~= text_args(
            texts_view(texts@.take(i as int)),
        ).push(ArgView::Text(texts@[i as int]@)));
        assert(c.args_view() =~= old(c).args_view() + text_args(
            texts_view(texts@.take(i + 1)),
        ));
        i = i + 1;
    }
    assert(texts@.take(i as int) =~= texts@);
}

} // verus!
