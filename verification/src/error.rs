//! The errors of the queue's logic.
use vstd::prelude::*;

use crate::decode::DecodeError;

verus! {

/// An error met by the queue's logic.
#[derive(Clone, Debug)]
pub enum Error {
    /// The store answered with an error; it holds the store's message.
    Server(String),
    /// A reply of the store could not be decoded.
    Decode(DecodeError),
    /// Fewer tasks were re-queued than were handed back.
    ReenqueueMismatch {
        /// The number of tasks handed back.
        queued: usize,
        /// The number of tasks re-queued.
        abandoned: usize,
    },
    /// The worker was removed from the store.
    WorkerOutOfSync,
    /// A worker of that name is registered already.
    WorkerAlreadyExists(String),
}

} // verus!
