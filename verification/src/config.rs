//! Configuration of a queue: batching, liveness detection and the names of
//! the keys under which the queue keeps its state.
use vstd::prelude::*;

use crate::duration::{Duration, NANOS_PER_SEC};

verus! {

/// The key `suffix` of the queue named `queue`.
pub open spec fn queue_key(queue: Seq<char>, suffix: Seq<char>) -> Seq<char> {
    queue + suffix
}

/// The keys of one queue are told apart by their suffixes: two keys of the
/// same queue are equal only when their suffixes are.
pub proof fn lemma_queue_key_suffix_injective(queue: Seq<char>, s1: Seq<char>, s2: Seq<char>)
    ensures
        queue_key(queue, s1) == queue_key(queue, s2) ==> s1 == s2,
{
    if queue_key(queue, s1) == queue_key(queue, s2) {
        assert(s1 =~= queue_key(queue, s1).skip(queue.len() as int));
        assert(s2 =~= queue_key(queue, s2).skip(queue.len() as int));
    }
}

/// The key of a given suffix tells queues apart: two queues have the same
/// key of a suffix only when they are the same queue.
pub proof fn lemma_queue_key_queue_injective(q1: Seq<char>, q2: Seq<char>, suffix: Seq<char>)
    ensures
        queue_key(q1, suffix) == queue_key(q2, suffix) ==> q1 == q2,
{
    if queue_key(q1, suffix) == queue_key(q2, suffix) {
        let k = queue_key(q1, suffix);
        assert((q1 + suffix).len() == q1.len() + suffix.len());
        assert((q2 + suffix).len() == q2.len() + suffix.len());
        assert(q1.len() == q2.len());
        assert(q1 =~= k.take(q1.len() as int));
        assert(q2 =~= k.take(q2.len() as int));
    }
}

/// Configuration for a worker's queue, batching, and liveness detection.
///
/// Defaults: a batch size of 10, a heartbeat every 30 seconds, 2 missed
/// heartbeats, the queue `"default"`, no database URL, and task locking,
/// result persistence and event emission all enabled, with idempotency keys
/// that never expire.
#[derive(Clone, Debug, PartialEq, Eq)]
pub struct Config {
    /// The maximum number of jobs fetched in a single batch.
    pub batch_size: usize,
    /// The interval between worker heartbeats.
    pub heartbeat_interval: Duration,
    /// The number of missed heartbeats allowed before a worker is
    /// considered dead.
    pub missed_heartbeats: usize,
    /// The queue from which jobs are consumed.
    pub queue: String,
    /// An optional database URL used by the worker.
    pub database_url: Option<String>,
    /// Whether tasks are locked while being processed.
    pub lock_tasks: bool,
    /// Whether job results are persisted.
    pub persist_results: bool,
    /// Whether task events are emitted via pubsub.
    pub emit_events: bool,
    /// How long an idempotency key is retained; `None` keeps it forever.
    pub idempotency_ttl: Option<Duration>,
}

/// The default batch size.
pub fn default_batch_size() -> (n: usize)
    ensures
        n == 10,
{
    10
}

/// The default heartbeat interval: thirty seconds.
pub fn default_heartbeat_interval() -> (d: Duration)
    ensures
        d.wf(),
        d.secs_part() == 30,
        d.nanos_part() == 0,
{
    Duration::from_secs(30)
}

/// The default number of heartbeats a worker may miss.
pub fn default_missed_heartbeats() -> (n: usize)
    ensures
        n == 2,
{
    2
}

/// Events, locking and result persistence are enabled by default.
pub fn default_events() -> (b: bool)
    ensures
        b,
{
    true
}

impl Default for Config {
    fn default() -> (c: Self)
        ensures
            c.batch_size == 10,
            c.heartbeat_interval.secs_part() == 30,
            c.heartbeat_interval.nanos_part() == 0,
            c.missed_heartbeats == 2,
            c.queue@ == "default"@,
            c.database_url.is_none(),
            c.lock_tasks,
            c.persist_results,
            c.emit_events,
            c.idempotency_ttl.is_none(),
    {
        Config {
            batch_size: default_batch_size(),
            heartbeat_interval: default_heartbeat_interval(),
            missed_heartbeats: default_missed_heartbeats(),
            queue: "default".to_owned(),
            database_url: None,
            lock_tasks: default_events(),
            persist_results: default_events(),
            emit_events: default_events(),
            idempotency_ttl: None,
        }
    }
}

impl Config {
    /// Sets the maximum number of jobs to fetch in a single batch; the size
    /// must not be zero.
    pub fn batch_size(self, size: usize) -> (c: Self)
        requires
            size > 0,
        ensures
            c == (Config { batch_size: size, ..self }),
    {
        Config { batch_size: size, ..self }
    }

    /// Sets the interval between worker heartbeats.
    pub fn heartbeat_interval(self, interval: Duration) -> (c: Self)
        ensures
            c == (Config { heartbeat_interval: interval, ..self }),
    {
        Config { heartbeat_interval: interval, ..self }
    }

    /// Sets the queue from which jobs are consumed.
    pub fn queue(self, queue: &str) -> (c: Self)
        ensures
            c.queue@ == queue@,
            c == (Config { queue: c.queue, ..self }),
    {
        Config { queue: queue.to_owned(), ..self }
    }

    /// Sets the number of missed heartbeats allowed before a worker is
    /// considered dead.
    pub fn missed_heartbeats(self, missed_heartbeats: usize) -> (c: Self)
        ensures
            c == (Config { missed_heartbeats, ..self }),
    {
        Config { missed_heartbeats, ..self }
    }

    /// Sets the database URL used by the worker.
    pub fn database_url(self, database_url: String) -> (c: Self)
        ensures
            c == (Config { database_url: Some(database_url), ..self }),
    {
        Config { database_url: Some(database_url), ..self }
    }

    /// Enables or disables task locking and worker lease management.
    pub fn lock_tasks(self, lock_tasks: bool) -> (c: Self)
        ensures
            c == (Config { lock_tasks, ..self }),
    {
        Config { lock_tasks, ..self }
    }

    /// Enables or disables emitting pubsub events.
    pub fn emit_events(self, emit_events: bool) -> (c: Self)
        ensures
            c == (Config { emit_events, ..self }),
    {
        Config { emit_events, ..self }
    }

    /// Enables or disables result persistence.
    pub fn persist_results(self, persist_results: bool) -> (c: Self)
        ensures
            c == (Config { persist_results, ..self }),
    {
        Config { persist_results, ..self }
    }

    /// Sets the time-to-live of idempotency keys; `None` disables expiry.
    pub fn idempotency_ttl(self, ttl: Option<Duration>) -> (c: Self)
        ensures
            c == (Config { idempotency_ttl: ttl, ..self }),
    {
        Config { idempotency_ttl: ttl, ..self }
    }

    /// Whether the orphan timeout fits in a `Duration`.
    pub open spec fn orphaned_duration_fits(self) -> bool {
        self.heartbeat_interval.total_nanos() * ((self.missed_heartbeats as u32) as nat) / (
        NANOS_PER_SEC as nat) <= u64::MAX
    }

    /// The orphan timeout in whole seconds.
    pub open spec fn orphaned_secs(self) -> nat {
        self.heartbeat_interval.total_nanos() * ((self.missed_heartbeats as u32) as nat) / (
        NANOS_PER_SEC as nat)
    }

    /// The orphan timeout in whole seconds.
    pub fn orphaned_secs_exec(&self) -> (s: u64)
        requires
            self.orphaned_duration_fits(),
        ensures
            s as nat == self.orphaned_secs(),
    {
        let d = self.orphaned_duration();
        proof {
            Duration::lemma_secs_of_total(d);
        }
        d.as_secs()
    }

    /// The time after which a worker may be considered orphaned: the
    /// heartbeat interval times the number of missed heartbeats (taken as a
    /// `u32`).
    pub fn orphaned_duration(&self) -> (d: Duration)
        requires
            self.orphaned_duration_fits(),
        ensures
            d.wf(),
            d.total_nanos() == self.heartbeat_interval.total_nanos() * ((
            self.missed_heartbeats as u32) as nat),
    {
        self.heartbeat_interval.mul(self.missed_heartbeats as u32)
    }

    /// The key of the list of pending jobs.
    pub fn active_jobs_list(&self) -> (k: String)
        ensures
            k@ == queue_key(self.queue@, ":active"@),
    {
        let mut k = self.queue.clone();
        k.append(":active");
        k
    }

    /// The key of the set of workers.
    pub fn workers_set(&self) -> (k: String)
        ensures
            k@ == queue_key(self.queue@, ":workers"@),
    {
        let mut k = self.queue.clone();
        k.append(":workers");
        k
    }

    /// The key prefix of the workers' metadata.
    pub fn worker_metadata_key(&self) -> (k: String)
        ensures
            k@ == queue_key(self.queue@, ":workers:"@),
    {
        let mut k = self.queue.clone();
        k.append(":workers:");
        k
    }

    /// The key of the set of dead jobs.
    pub fn dead_jobs_set(&self) -> (k: String)
        ensures
            k@ == queue_key(self.queue@, ":dead"@),
    {
        let mut k = self.queue.clone();
        k.append(":dead");
        k
    }

    /// The key of the set of done jobs.
    pub fn done_jobs_set(&self) -> (k: String)
        ensures
            k@ == queue_key(self.queue@, ":done"@),
    {
        let mut k = self.queue.clone();
        k.append(":done");
        k
    }

    /// The key of the set of failed jobs.
    pub fn failed_jobs_set(&self) -> (k: String)
        ensures
            k@ == queue_key(self.queue@, ":failed"@),
    {
        let mut k = self.queue.clone();
        k.append(":failed");
        k
    }

    /// The key of the set of inflight jobs.
    pub fn inflight_jobs_set(&self) -> (k: String)
        ensures
            k@ == queue_key(self.queue@, ":inflight"@),
    {
        let mut k = self.queue.clone();
        k.append(":inflight");
        k
    }

    /// The key of the inflight set of the worker named `worker_name`.
    pub fn inflight_worker_id(&self, worker_name: &str) -> (k: String)
        ensures
            k@ == queue_key(self.queue@, ":inflight"@) + ":"@ + worker_name@,
    {
        let mut k = self.inflight_jobs_set();
        k.append(":");
        k.append(worker_name);
        k
    }

    /// The key of the hash of job data.
    pub fn job_data_hash(&self) -> (k: String)
        ensures
            k@ == queue_key(self.queue@, ":data"@),
    {
        let mut k = self.queue.clone();
        k.append(":data");
        k
    }

    /// The key of the hash of job metadata.
    pub fn job_meta_hash(&self) -> (k: String)
        ensures
            k@ == queue_key(self.queue@, ":meta"@),
    {
        let mut k = self.queue.clone();
        k.append(":meta");
        k
    }

    /// The key of the set of scheduled jobs.
    pub fn scheduled_jobs_set(&self) -> (k: String)
        ensures
            k@ == queue_key(self.queue@, ":scheduled"@),
    {
        let mut k = self.queue.clone();
        k.append(":scheduled");
        k
    }

    /// The key of the list of signals.
    pub fn signal_list(&self) -> (k: String)
        ensures
            k@ == queue_key(self.queue@, ":signal"@),
    {
        let mut k = self.queue.clone();
        k.append(":signal");
        k
    }

    /// The key of the set of idempotency keys.
    pub fn idempotency_key_set(&self) -> (k: String)
        ensures
            k@ == queue_key(self.queue@, ":idempotency"@),
    {
        let mut k = self.queue.clone();
        k.append(":idempotency");
        k
    }
}

} // verus!
