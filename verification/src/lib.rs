//! Durable tasks for a Model Context Protocol server, on top of the Taquba task
//! queue.
//!
//! A tool call that is made as a task becomes a job in a queue named after the
//! tool. A worker claims the job, invokes the tool, writes the outcome to
//! `<prefix>/results/<task_id>.json` and settles the job. Task state, retry
//! attempts and results so survive a restart of the process.
//!
//! This library holds what is decided along the way: what a client is told, what
//! is written and in which order, when a failure is retried, when a record
//! expires. It talks to no queue and to no store. Its caller performs the steps
//! that it is handed and comes back with what they gave.
//!
//! - [`submit`], [`info`], [`outcome`], [`cancel`] and [`listing`] answer the
//!   five task requests of the protocol; [`backend`] holds what they share.
//! - [`worker`] decides what becomes of a claimed job, who works, and what the
//!   reaper drops.
//! - [`result_store`], [`audit`] and [`pointer`] say what is kept of a task, and
//!   where; [`in_flight`] is what is kept in memory.
//! - [`laws`] states what holds of all of it together; [`replies`], [`workings`],
//!   [`keeping`] and [`settings`] state what holds of each operation, in terms of
//!   what goes in and what comes out; [`contents`] states what the contents that
//!   contracts speak of have to do with the values that callers hold.

pub mod audit;
pub mod backend;
pub mod cancel;
pub mod contents;
pub mod error;
pub mod in_flight;
pub mod info;
pub mod keeping;
pub mod laws;
pub mod listing;
pub mod location;
pub mod outcome;
pub mod pointer;
pub mod protocol;
pub mod queue;
pub mod replies;
pub mod result_store;
pub mod settings;
pub mod stamp;
pub mod submit;
pub mod text;
pub mod time;
pub mod worker;
pub mod workings;

pub use backend::{TaqubaTaskBackend, TaqubaTaskBackendBuilder, TaqubaTaskBackendConfig};
pub use error::{Error, Result};
pub use worker::RetryPolicy;
