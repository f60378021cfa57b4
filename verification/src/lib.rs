//! A worker-side job server for the Sidekiq queue protocol on Redis.
//!
//! The crate holds the decisions of such a server: which key is which, what
//! a dispatch writes and when, how the middleware wraps a handler, what a
//! heartbeat says, and how the control loop reacts to what it meets with.
//! Talking to Redis, waiting for signals and running threads are left to the
//! program around it, which carries out what the server asks for.

use vstd::prelude::*;

pub mod clock;
pub mod errors;
pub mod ident;
pub mod job;
pub mod job_agent;
pub mod job_handler;
pub mod keys;
pub mod middleware;
pub mod pipeline;
pub mod registry;
pub mod report;
pub mod server;
pub mod text;

pub use errors::ErrorKind;
pub use job::{Job, RetryInfo};
pub use job_agent::JobAgent;
pub use job_handler::{JobHandler, JobHandlerResult};
pub use middleware::{Failure, MiddleWare, MiddleWareResult};
pub use server::{SidekiqServer, SidekiqServerBuilder};

verus! {

/// How a handler classifies a job that it did not fail.
#[derive(Debug, Clone, Copy, PartialEq, Eq)]
pub enum JobSuccessType {
    /// The job was carried out.
    Success,
    /// The job was looked at and left alone on purpose.
    Ignore,
}

} // verus!
