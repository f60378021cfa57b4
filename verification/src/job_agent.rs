//! The handle on a job that the stages of a dispatch pass along.

use vstd::prelude::*;
use crate::job::{Job, RetryInfo};

verus! {

/// The handle on a job that the stages of one dispatch pass along. Each stage
/// owns it in turn, so a stage may change the job without copying it.
#[derive(Debug, Clone)]
pub struct JobAgent {
    pub job: Job,
}

impl JobAgent {
    /// A handle on `job`.
    pub fn new(job: Job) -> (agent: JobAgent)
        ensures
            agent.job == job,
    {
        JobAgent { job }
    }

    /// The job, to read.
    pub fn job(&self) -> (job: &Job)
        ensures
            *job == self.job,
    {
        &self.job
    }

    /// Records what is known of the job's failures.
    pub fn set_retry_info(&mut self, info: Option<RetryInfo>)
        ensures
            final(self).job.retry_info == info,
            final(self).job.class == old(self).job.class,
            final(self).job.jid == old(self).job.jid,
            final(self).job.queue == old(self).job.queue,
            final(self).job.args == old(self).job.args,
            final(self).job.namespace == old(self).job.namespace,
            final(self).job.extra == old(self).job.extra,
    {
        self.job.retry_info = info;
    }

    /// Gives the job back.
    pub fn into_job(self) -> (job: Job)
        ensures
            job == self.job,
    {
        self.job
    }
}

} // verus!
