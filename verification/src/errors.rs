//! What can go wrong in the server, by kind.

use vstd::prelude::*;

verus! {

/// The kinds of error the server reports.
#[derive(Debug, Clone, PartialEq, Eq)]
pub enum ErrorKind {
    /// The configured concurrency is zero.
    ZeroConcurrency,
    /// No queue was registered.
    ZeroQueue,
    /// No job handler was registered.
    NoJobHandler,
    /// The Redis connection pool could not be set up.
    RedisPool(String),
    /// A Redis connection or command failed.
    RedisUnavailable(String),
    /// A dequeued payload is not a valid job.
    JobDecode(String),
    /// No handler is registered for this job class.
    UnknownJobClass(String),
    /// A handler reported a failure, or panicked.
    Handler(String),
}

/// The text that describes an error.
pub open spec fn message_of(e: ErrorKind) -> Seq<char> {
    match e {
        ErrorKind::ZeroConcurrency => "concurrency is zero"@,
        ErrorKind::ZeroQueue => "no queue is registered"@,
        ErrorKind::NoJobHandler => "no job handler is registered"@,
        ErrorKind::RedisPool(detail) => "redis pool: "@ + detail@,
        ErrorKind::RedisUnavailable(detail) => "redis: "@ + detail@,
        ErrorKind::JobDecode(detail) => "job decode: "@ + detail@,
        ErrorKind::UnknownJobClass(class) => "unknown job class '"@ + class@ + "'"@,
        ErrorKind::Handler(detail) => "handler: "@ + detail@,
    }
}

impl ErrorKind {
    /// True of the three errors that reject a configuration.
    pub open spec fn is_configuration(self) -> bool {
        self is ZeroConcurrency || self is ZeroQueue || self is NoJobHandler
    }

    /// Describes the error in words.
    pub fn message(&self) -> (text: String)
        ensures
            text@ == message_of(*self),
    {
        match self {
            ErrorKind::ZeroConcurrency => String::from_str("concurrency is zero"),
            ErrorKind::ZeroQueue => String::from_str("no queue is registered"),
            ErrorKind::NoJobHandler => String::from_str("no job handler is registered"),
            ErrorKind::RedisPool(detail) => String::from_str("redis pool: ").concat(detail.as_str()),
            ErrorKind::RedisUnavailable(detail) => String::from_str("redis: ").concat(detail.as_str()),
            ErrorKind::JobDecode(detail) => String::from_str("job decode: ").concat(detail.as_str()),
            ErrorKind::UnknownJobClass(class) => {
                let mut text = String::from_str("unknown job class '");
                text.append(class.as_str());
                text.append("'");
                text
            },
            ErrorKind::Handler(detail) => String::from_str("handler: ").concat(detail.as_str()),
        }
    }
}

} // verus!
