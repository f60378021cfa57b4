//! Handlers: the routines that carry out jobs.

use vstd::prelude::*;
use crate::errors::ErrorKind;
use crate::job_agent::JobAgent;
use crate::JobSuccessType;

verus! {

/// What a handler answers: how it succeeded, or why it failed.
pub type JobHandlerResult = Result<JobSuccessType, ErrorKind>;

/// A routine that carries out the jobs of one class.
pub trait JobHandler {
    /// Carries out the job behind `agent`.
    fn perform(&self, agent: &JobAgent) -> JobHandlerResult;
}

} // verus!
