//! The context that the store keeps with each job.
use vstd::prelude::*;

use std::time::SystemTime;

verus! {

/// The context of a job kept by the store.
#[derive(Clone, Debug)]
pub struct RedisContext {
    /// The number of attempts allowed.
    pub max_attempts: u32,
    /// The worker that holds the job.
    pub lock_by: Option<String>,
    /// When the job is due.
    pub run_at: Option<SystemTime>,
}

impl Default for RedisContext {
    fn default() -> (c: Self)
        ensures
            c.max_attempts == 5,
            c.lock_by.is_none(),
            c.run_at.is_none(),
    {
        RedisContext { max_attempts: 5, lock_by: None, run_at: None }
    }
}

} // verus!
