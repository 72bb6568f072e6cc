//! The logic of a task queue kept in Redis: its configuration and key
//! names, the invocations of its server-side scripts, the decoding of the
//! tasks those scripts hand back, and the decisions of its workers'
//! heartbeats, registrations and task events.
pub mod clock;
pub mod config;
pub mod context;
pub mod decode;
pub mod duration;
pub mod error;
pub mod factory;
pub mod meta;
pub mod persist;
pub mod queries;
pub mod script;
pub mod status;
pub mod task_id;
pub mod text;
