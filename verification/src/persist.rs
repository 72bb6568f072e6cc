//! The decisions of the persistence layer: which queries a heartbeat and a
//! registration make, how a batch of task events splits, and when a hand-back
//! of abandoned tasks counts as an error.
use vstd::prelude::*;

use crate::config::Config;
use crate::error::Error;
use crate::queries::handle_results::{handle_results_call, is_handle_results_call, AckPayload};
use crate::queries::keep_alive::{is_keep_alive_call, keep_alive_call};
use crate::queries::reenqueue::{is_reenqueue_call, reenqueue_orphaned_call, WorkerFilter};
use crate::queries::register_worker::{is_register_worker_call, register_worker_call};
use crate::queries::task_lease::{
    acquire_leases_call, is_acquire_leases_call, is_renew_leases_call, renew_leases_call,
};
use crate::script::{texts_view, ScriptCall};

verus! {

/// The outcome of handing back abandoned tasks: with task locking on, every
/// task handed back must have been re-queued; otherwise the count is the
/// answer.
pub fn check_reenqueued(lock_tasks: bool, count: u64, queued: usize) -> (r: Result<u64, Error>)
    ensures
        lock_tasks && count as usize != queued ==> (r matches Err(Error::ReenqueueMismatch {
            queued: q,
            abandoned: a,
        }) && q == queued && a == count as usize),
        !(lock_tasks && count as usize != queued) ==> r == Ok::<u64, Error>(count),
{
    if lock_tasks && count as usize != queued {
        Err(Error::ReenqueueMismatch { queued, abandoned: count as usize })
    } else {
        Ok(count)
    }
}

/// An event that a worker reports about a task.
#[derive(Clone, Debug)]
pub enum PersistEvent {
    /// The task finished with a result.
    Complete(AckPayload),
    /// The worker took the task, whose identifier reads as given.
    Lock(String),
    /// Any other event.
    Other,
}

/// The identifiers of the tasks taken, in the order of the events.
pub open spec fn lock_ids_of(events: Seq<PersistEvent>) -> Seq<Seq<char>>
    decreases events.len(),
{
    if events.len() == 0 {
        Seq::empty()
    } else {
        let rest = lock_ids_of(events.drop_last());
        match events.last() {
            PersistEvent::Lock(id) => rest.push(id@),
            _ => rest,
        }
    }
}

/// The results of the tasks finished, in the order of the events.
pub open spec fn acks_of(events: Seq<PersistEvent>) -> Seq<AckPayload>
    decreases events.len(),
{
    if events.len() == 0 {
        Seq::empty()
    } else {
        let rest = acks_of(events.drop_last());
        match events.last() {
            PersistEvent::Complete(p) => rest.push(p),
            _ => rest,
        }
    }
}

/// A batch of events split by kind.
#[derive(Clone, Debug)]
pub struct EventBatch {
    /// The identifiers of the tasks taken, for which locks are acquired.
    pub lock_ids: Vec<String>,
    /// The results of the tasks finished, which are recorded.
    pub acks: Vec<AckPayload>,
}

/// Splits a batch of events into the tasks taken and the results of tasks
/// finished, each in the order of the events; other events are dropped.
pub fn split_events(events: &Vec<PersistEvent>) -> (b: EventBatch)
    ensures
        texts_view(b.lock_ids@) == lock_ids_of(events@),
        b.acks@ == acks_of(events@),
{
    let mut lock_ids: Vec<String> = Vec::new();
    let mut acks: Vec<AckPayload> = Vec::new();
    let mut i: usize = 0;
    while i < events.len()
        invariant
            i <= events@.len(),
            texts_view(lock_ids@) == lock_ids_of(events@.take(i as int)),
            acks@ == acks_of(events@.take(i as int)),
        decreases events@.len() - i,
    {
        assert(events@.take(i + 1).drop_last() =~= events@.take(i as int));
        let ghost before = lock_ids@;
        match &events[i] {
            PersistEvent::Lock(id) => {
                lock_ids.push(id.clone());
                assert(texts_view(lock_ids@) =~= texts_view(before).push(id@));
            },
            PersistEvent::Complete(p) => {
                let q = AckPayload {
                    task_id: p.task_id.clone(),
                    result: p.result.clone(),
                    status: p.status,
                    attempt: p.attempt,
                };
                assert(q == *p);
                acks.push(q);
            },
            PersistEvent::Other => {},
        }
        i = i + 1;
    }
    assert(events@.take(i as int) =~= events@);
    EventBatch { lock_ids, acks }
}

/// The queries of a heartbeat at time `now` of the worker named
/// `worker_name`, running the tasks whose identifiers read `running`, in
/// order: its heartbeat; the renewal of its locks, when tasks are locked and
/// it runs any; the re-queueing of the tasks of the other workers that have
/// been silent for the orphan timeout.
pub fn heartbeat_calls(config: &Config, worker_name: &str, running: &Vec<String>, now: u64) -> (r:
    Vec<ScriptCall>)
    requires
        config.orphaned_duration_fits(),
        now >= config.orphaned_secs(),
    ensures
        r@.len() == if config.lock_tasks && running@.len() > 0 {
            3nat
        } else {
            2nat
        },
        is_keep_alive_call(r@[0], *config, worker_name@, now),
        config.lock_tasks && running@.len() > 0 ==> is_renew_leases_call(
            r@[1],
            *config,
            worker_name@,
            texts_view(running@),
            now,
        ),
        is_reenqueue_call(r@[r@.len() - 1], *config, None, now),
{
    let mut r: Vec<ScriptCall> = Vec::new();
    r.push(keep_alive_call(config, worker_name, now));
    if config.lock_tasks {
        match renew_leases_call(config, worker_name, running, now) {
            Some(c) => r.push(c),
            None => {},
        }
    }
    let filter = WorkerFilter::AllExcept(worker_name.to_owned());
    r.push(reenqueue_orphaned_call(config, &filter, now));
    r
}

/// The queries that register at time `now` the worker named `worker_name`,
/// which runs the service described by `service`, in order: the re-queueing
/// of the tasks it held before, if it has been silent for a heartbeat
/// interval; its registration.
pub fn register_calls(config: &Config, worker_name: &str, service: &str, now: u64) -> (r: Vec<
    ScriptCall,
>)
    requires
        config.orphaned_duration_fits(),
        now >= config.heartbeat_interval.secs_part(),
    ensures
        r@.len() == 2,
        is_reenqueue_call(r@[0], *config, Some(worker_name@), now),
        is_register_worker_call(r@[1], *config, worker_name@, service@, now),
{
    let mut r: Vec<ScriptCall> = Vec::new();
    let filter = WorkerFilter::Only(worker_name.to_owned());
    r.push(reenqueue_orphaned_call(config, &filter, now));
    r.push(register_worker_call(config, worker_name, service, now));
    r
}

/// The queries that handle, at time `now`, a batch of events of the worker
/// named `worker_name`, in order: the locking of the tasks taken, when any
/// were taken; the recording of the results of the tasks finished, when any
/// finished. Other events make no query.
pub fn handle_events_calls(
    config: &Config,
    worker_name: &str,
    events: &Vec<PersistEvent>,
    now: u64,
) -> (r: Vec<ScriptCall>)
    ensures
        r@.len() == (if lock_ids_of(events@).len() > 0 {
            1nat
        } else {
            0nat
        }) + (if acks_of(events@).len() > 0 {
            1nat
        } else {
            0nat
        }),
        lock_ids_of(events@).len() > 0 ==> is_acquire_leases_call(
            r@[0],
            *config,
            worker_name@,
            lock_ids_of(events@),
            now,
        ),
        acks_of(events@).len() > 0 ==> is_handle_results_call(
            r@[r@.len() - 1],
            *config,
            worker_name@,
            acks_of(events@),
            now,
        ),
{
    let batch = split_events(events);
    let mut r: Vec<ScriptCall> = Vec::new();
    match acquire_leases_call(config, worker_name, &batch.lock_ids, now) {
        Some(c) => r.push(c),
        None => {},
    }
    match handle_results_call(config, worker_name, &batch.acks, now) {
        Some(c) => r.push(c),
        None => {},
    }
    r
}

} // verus!
