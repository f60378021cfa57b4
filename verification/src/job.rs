//! The job as it travels from the queue through the pipeline.

use vstd::prelude::*;
use crate::clock::Timestamp;

verus! {

/// A JSON value of serde_json. The server carries such values and never looks inside.
#[verifier::external_type_specification]
#[verifier::external_body]
pub struct ExJsonValue(serde_json::Value);

/// What is known of the earlier failures of a job.
#[derive(Debug, Clone)]
pub struct RetryInfo {
    pub retry_count: u64,
    pub error_message: String,
    pub error_class: String,
    pub failed_at: Timestamp,
    pub retried_at: Option<Timestamp>,
}

/// A unit of work, as a producer enqueued it.
#[derive(Debug, Clone)]
pub struct Job {
    /// The name of the handler that is to run it.
    pub class: String,
    /// The identifier that the producer gave it.
    pub jid: String,
    /// The queue it came from, without namespace or prefix.
    pub queue: String,
    /// The payload for the handler.
    pub args: Vec<serde_json::Value>,
    /// Present once the job has failed before.
    pub retry_info: Option<RetryInfo>,
    /// The namespace of the server that dequeued it; producers do not send it.
    pub namespace: String,
    /// Every other field that the producer sent, by name.
    pub extra: Vec<(String, serde_json::Value)>,
}

/// `info` as it stands after a retry at `now`.
pub open spec fn retried(info: RetryInfo, now: Timestamp) -> RetryInfo {
    RetryInfo {
        retry_count: info.retry_count,
        error_message: info.error_message,
        error_class: info.error_class,
        failed_at: info.failed_at,
        retried_at: Some(now),
    }
}

/// `after` is `before` as the server `namespace` takes it up at `now`: the
/// namespace is filled in, a job that failed before is marked as retried now,
/// and nothing else differs.
pub open spec fn taken_up(before: Job, namespace: Seq<char>, now: Timestamp, after: Job) -> bool {
    &&& after.namespace@ == namespace
    &&& after.retry_info == match before.retry_info {
        Some(info) => Some(retried(info, now)),
        None => None,
    }
    &&& after.class == before.class
    &&& after.jid == before.jid
    &&& after.queue == before.queue
    &&& after.args == before.args
    &&& after.extra == before.extra
}

impl Job {
    /// Marks the job as taken up by the server `namespace` at `now`.
    pub fn stamp(self, namespace: &str, now: Timestamp) -> (job: Job)
        ensures
            taken_up(self, namespace@, now, job),
    {
        let Job { class, jid, queue, args, retry_info, namespace: _, extra } = self;
        let retry_info = match retry_info {
            Some(info) => {
                let RetryInfo { retry_count, error_message, error_class, failed_at, retried_at: _ } = info;
                Some(RetryInfo { retry_count, error_message, error_class, failed_at, retried_at: Some(now) })
            },
            None => None,
        };
        Job { class, jid, queue, args, retry_info, namespace: String::from_str(namespace), extra }
    }
}

} // verus!
