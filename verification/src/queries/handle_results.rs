//! Recording the results of finished tasks.
use vstd::prelude::*;

use crate::config::{queue_key, Config};
use crate::script::{ArgView, Script, ScriptArg, ScriptCall};
use crate::status::{status_text, TaskStatus};

verus! {

/// The result of a finished task, ready to be stored.
#[derive(Clone, Debug)]
pub struct AckPayload {
    /// The task's identifier, as text.
    pub task_id: String,
    /// The task's result, encoded as JSON.
    pub result: String,
    /// The state the task finished in.
    pub status: TaskStatus,
    /// The attempt that produced the result.
    pub attempt: usize,
}

/// The arguments that record one result at time `timestamp`.
pub open spec fn ack_args(p: AckPayload, timestamp: u64) -> Seq<ArgView> {
    seq![
        ArgView::Text(p.task_id@),
        ArgView::Int(timestamp),
        ArgView::Text(p.result@),
        ArgView::Text(status_text(p.status)),
        ArgView::Int(p.attempt as u64),
    ]
}

/// The arguments that record the results, in order, at time `timestamp`.
pub open spec fn acks_args(ps: Seq<AckPayload>, timestamp: u64) -> Seq<ArgView>
    decreases ps.len(),
{
    if ps.len() == 0 {
        Seq::empty()
    } else {
        acks_args(ps.drop_last(), timestamp) + ack_args(ps.last(), timestamp)
    }
}

/// The arguments of the `i`-th result among `args`, five to each result.
pub open spec fn ack_group(args: Seq<ArgView>, i: int) -> Seq<ArgView> {
    args.subrange(5 * i, 5 * i + 5)
}

/// Each result is recorded by five arguments of its own, in the order of the
/// results: the `i`-th five carry the task identifier, the time, the result,
/// the name of the state and the attempt of the `i`-th result, for every
/// `i`.
pub proof fn lemma_acks_args_layout(ps: Seq<AckPayload>, timestamp: u64)
    ensures
        acks_args(ps, timestamp).len() == 5 * ps.len(),
        forall|i: int|
            #![trigger ack_group(acks_args(ps, timestamp), i)]
            0 <= i < ps.len() ==> {
                &&& ack_group(acks_args(ps, timestamp), i)[0] == ArgView::Text(ps[i].task_id@)
                &&& ack_group(acks_args(ps, timestamp), i)[1] == ArgView::Int(timestamp)
                &&& ack_group(acks_args(ps, timestamp), i)[2] == ArgView::Text(ps[i].result@)
                &&& ack_group(acks_args(ps, timestamp), i)[3] == ArgView::Text(
                    status_text(ps[i].status),
                )
                &&& ack_group(acks_args(ps, timestamp), i)[4] == ArgView::Int(ps[i].attempt as u64)
            },
{
    lemma_acks_args_len(ps, timestamp);
    assert forall|i: int| 0 <= i < ps.len() implies #[trigger] ack_group(acks_args(ps, timestamp), i)
        == ack_args(ps[i], timestamp) by {
        lemma_ack_group_at(ps, timestamp, i);
    }
}

proof fn lemma_acks_args_len(ps: Seq<AckPayload>, timestamp: u64)
    ensures
        acks_args(ps, timestamp).len() == 5 * ps.len(),
    decreases ps.len(),
{
    if ps.len() > 0 {
        lemma_acks_args_len(ps.drop_last(), timestamp);
    }
}

proof fn lemma_ack_group_at(ps: Seq<AckPayload>, timestamp: u64, i: int)
    requires
        0 <= i < ps.len(),
    ensures
        ack_group(acks_args(ps, timestamp), i) == ack_args(ps[i], timestamp),
    decreases ps.len(),
{
    let prefix = ps.drop_last();
    lemma_acks_args_len(prefix, timestamp);
    let head = acks_args(prefix, timestamp);
    let all = acks_args(ps, timestamp);
    assert(all == head + ack_args(ps.last(), timestamp));
    if i < prefix.len() {
        lemma_ack_group_at(prefix, timestamp, i);
        assert(ack_group(all, i) =~= ack_group(head, i));
    } else {
        assert(ack_group(all, i) =~= ack_args(ps.last(), timestamp));
    }
}

/// `c` records, at time `timestamp`, the results `payloads` of tasks run by
/// the worker named `worker`.
pub open spec fn is_handle_results_call(
    c: ScriptCall,
    config: Config,
    worker: Seq<char>,
    payloads: Seq<AckPayload>,
    timestamp: u64,
) -> bool {
    &&& c.script == Script::HandleResults
    &&& c.keys_view() == seq![
        queue_key(config.queue@, ":inflight"@) + ":"@ + worker,
        queue_key(config.queue@, ":done"@),
        queue_key(config.queue@, ":dead"@),
        queue_key(config.queue@, ":scheduled"@),
        queue_key(config.queue@, ":meta"@),
    ]
    &&& c.args_view() == seq![ArgView::Flag(config.emit_events)] + acks_args(payloads, timestamp)
}

/// The invocation that records, at time `timestamp`, the results of tasks
/// run by the worker named `worker_name`; none when there are no results.
pub fn handle_results_call(
    config: &Config,
    worker_name: &str,
    payloads: &Vec<AckPayload>,
    timestamp: u64,
) -> (r: Option<ScriptCall>)
    ensures
        r is None <==> payloads@.len() == 0,
        r matches Some(c) ==> is_handle_results_call(
            c,
            *config,
            worker_name@,
            payloads@,
            timestamp,
        ),
        r matches Some(c) ==> c.args_view().len() == 1 + 5 * payloads@.len(),
        r matches Some(c) ==> forall|i: int|
            #![trigger ack_group(c.args_view().skip(1), i)]
            0 <= i < payloads@.len() ==> {
                &&& ack_group(c.args_view().skip(1), i)[0] == ArgView::Text(payloads@[i].task_id@)
                &&& ack_group(c.args_view().skip(1), i)[1] == ArgView::Int(timestamp)
                &&& ack_group(c.args_view().skip(1), i)[2] == ArgView::Text(payloads@[i].result@)
                &&& ack_group(c.args_view().skip(1), i)[3] == ArgView::Text(
                    status_text(payloads@[i].status),
                )
                &&& ack_group(c.args_view().skip(1), i)[4] == ArgView::Int(
                    payloads@[i].attempt as u64,
                )
            },
{
    if payloads.len() == 0 {
        return None;
    }
    let mut c = ScriptCall::new(Script::HandleResults);
    c.key(config.inflight_worker_id(worker_name));
    c.key(config.done_jobs_set());
    c.key(config.dead_jobs_set());
    c.key(config.scheduled_jobs_set());
    c.key(config.job_meta_hash());
    c.arg(ScriptArg::Flag(config.emit_events));
    let ghost keys = c.keys_view();
    assert(keys =~= seq![
        queue_key(config.queue@, ":inflight"@) + ":"@ + worker_name@,
        queue_key(config.queue@, ":done"@),
        queue_key(config.queue@, ":dead"@),
        queue_key(config.queue@, ":scheduled"@),
        queue_key(config.queue@, ":meta"@),
    ]);
    let mut i: usize = 0;
    while i < payloads.len()
        invariant
            i <= payloads@.len(),
            c.script == Script::HandleResults,
            c.keys_view() == keys,
            c.args_view() == seq![ArgView::Flag(config.emit_events)] + acks_args(
                payloads@.take(i as int),
                timestamp,
            ),
        decreases payloads@.len() - i,
    {
        let p = &payloads[i];
        c.arg(ScriptArg::Text(p.task_id.clone()));
        c.arg(ScriptArg::Int(timestamp));
        c.arg(ScriptArg::Text(p.result.clone()));
        c.arg(ScriptArg::Text(p.status.name().to_owned()));
        c.arg(ScriptArg::Int(p.attempt as u64));
        assert(payloads@.take(i + 1).drop_last() =~= payloads@.take(i as int));
        assert(c.args_view() =~= seq![ArgView::Flag(config.emit_events)] + acks_args(
            payloads@.take(i + 1),
            timestamp,
        ));
        i = i + 1;
    }
    assert(payloads@.take(i as int) =~= payloads@);
    proof {
        lemma_acks_args_layout(payloads@, timestamp);
        assert(c.args_view().skip(1) =~= acks_args(payloads@, timestamp));
    }
    Some(c)
}

} // verus!
