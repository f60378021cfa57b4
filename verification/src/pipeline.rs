//! The dispatch of one job: the `before` hooks, the handler between the two
//! entries in the workers hash, the `after` hooks, and the count.
//!
//! A dispatch moves through three stages, each a type of its own, so that
//! they can only be taken in order: [`Packed`], [`Entered`], [`Performed`].
//! Each step hands back what is to be written to Redis before the next one.

use vstd::prelude::*;
use crate::clock::{utc_now, utc_today, Timestamp};
use crate::errors::ErrorKind;
use crate::job_agent::JobAgent;
use crate::job_handler::{JobHandler, JobHandlerResult};
use crate::keys::{lemma_stat_keys_distinct, stat_daily, stat_key, stat_key_on, stat_total};
use crate::middleware::{
    agent_of, lemma_no_stage_no_change, run_after, run_before, through_after, through_before,
    Failure, MiddleWare, MiddleWareResult,
};

verus! {

/// The seconds after which an entry in the workers hash expires.
pub const WORKER_TTL: u64 = 5;

/// The entry that says a worker is busy: to be set in the hash `key` under
/// `field`, with `key` expiring after `ttl` seconds. Its value holds `queue`,
/// the job as it then stands, and `run_at`.
#[derive(Debug, Clone)]
pub struct WorkerMark {
    pub key: String,
    pub field: String,
    pub queue: String,
    pub run_at: i64,
    pub ttl: u64,
}

/// The removal of a worker's entry: `field` is to be deleted from the hash `key`.
#[derive(Debug, Clone)]
pub struct WorkerClear {
    pub key: String,
    pub field: String,
}

/// The count of one finished dispatch: both keys are to be incremented by
/// `amount`, in one pipelined call.
#[derive(Debug, Clone)]
pub struct StatUpdate {
    pub failed: bool,
    pub daily_key: String,
    pub total_key: String,
    pub amount: u64,
}

/// A dispatch that is ready to run: the job, the handler of its class if
/// there is one, and the middleware stages.
pub struct Packed<H, M> {
    pub handler: Option<H>,
    pub stages: Vec<M>,
    pub agent: JobAgent,
    pub class: String,
    pub namespace: String,
    pub workers_key: String,
}

/// A dispatch whose `before` hooks have run.
pub struct Entered<H, M> {
    pub handler: Option<H>,
    pub stages: Vec<M>,
    pub continuation: MiddleWareResult,
    pub class: String,
    pub namespace: String,
    pub workers_key: String,
    pub worker_id: String,
}

/// A dispatch whose handler stage is over.
pub struct Performed<M> {
    pub stages: Vec<M>,
    pub continuation: MiddleWareResult,
    pub namespace: String,
}

/// `mark` is what a worker writes before it runs a handler: it is there
/// exactly when there is a handler and the job arrives at it unfailed, and
/// then it names the worker's field in the workers hash, the job's queue and
/// the second the run began, and expires after five seconds.
pub open spec fn marks(
    mark: Option<WorkerMark>,
    handler_present: bool,
    continuation: MiddleWareResult,
    workers_key: Seq<char>,
    worker_id: Seq<char>,
    now: Timestamp,
) -> bool {
    match mark {
        Some(m) => {
            &&& handler_present
            &&& continuation is Ok
            &&& m.key@ == workers_key
            &&& m.field@ == worker_id
            &&& m.queue@ == agent_of(continuation).job.queue@
            &&& m.run_at == now.secs
            &&& m.ttl == WORKER_TTL
        },
        None => !(handler_present && continuation is Ok),
    }
}

/// What follows a handler's answer: on success the job goes on and the
/// worker's entry is cleared; on failure the job goes on as a failure with the
/// handler's error, and the entry is left to expire.
pub open spec fn handled(
    after: (MiddleWareResult, Option<WorkerClear>),
    agent: JobAgent,
    outcome: JobHandlerResult,
    workers_key: Seq<char>,
    worker_id: Seq<char>,
) -> bool {
    match outcome {
        Ok(_) => {
            &&& after.0 == Ok::<JobAgent, Failure>(agent)
            &&& after.1 matches Some(clear)
            &&& clear.key@ == workers_key
            &&& clear.field@ == worker_id
        },
        Err(error) => {
            &&& after.0 == Err::<JobAgent, Failure>(Failure { agent, error })
            &&& after.1 is None
        },
    }
}

/// `update` counts one dispatch on the day `today`: as a failure if `failed`,
/// else as processed, once in the day's total and once in the running total.
pub open spec fn counts(update: StatUpdate, namespace: Seq<char>, failed: bool, today: Seq<char>) -> bool {
    &&& update.failed == failed
    &&& update.daily_key@ == stat_daily(namespace, failed, today)
    &&& update.total_key@ == stat_total(namespace, failed)
    &&& update.amount == 1
}

/// The result of [`Packed::enter`] for worker `worker_id` at `now`.
pub open spec fn entered<H, M: MiddleWare>(
    packed: Packed<H, M>,
    worker_id: Seq<char>,
    now: Timestamp,
    next: Entered<H, M>,
    mark: Option<WorkerMark>,
) -> bool {
    &&& through_before(packed.stages@, Ok(packed.agent), next.continuation)
    &&& next.handler == packed.handler
    &&& next.stages == packed.stages
    &&& next.class == packed.class
    &&& next.namespace == packed.namespace
    &&& next.workers_key == packed.workers_key
    &&& next.worker_id@ == worker_id
    &&& marks(mark, packed.handler is Some, next.continuation, packed.workers_key@, worker_id, now)
}

/// The result of [`Entered::perform`].
pub open spec fn performed<H: JobHandler, M>(
    state: Entered<H, M>,
    next: Performed<M>,
    clear: Option<WorkerClear>,
) -> bool {
    &&& next.stages == state.stages
    &&& next.namespace == state.namespace
    &&& match state.handler {
        None => {
            &&& next.continuation == Err::<JobAgent, Failure>(
                Failure {
                    agent: agent_of(state.continuation),
                    error: ErrorKind::UnknownJobClass(state.class),
                },
            )
            &&& clear is None
        },
        Some(handler) => match state.continuation {
            Err(_) => next.continuation == state.continuation && clear is None,
            Ok(agent) => exists|outcome: JobHandlerResult| #[trigger]
                call_ensures(H::perform, (&handler, &agent), outcome) && handled(
                    (next.continuation, clear),
                    agent,
                    outcome,
                    state.workers_key@,
                    state.worker_id@,
                ),
        },
    }
}

/// The result of [`Performed::leave`] on the day `today`.
pub open spec fn left<M: MiddleWare>(
    state: Performed<M>,
    today: Seq<char>,
    result: MiddleWareResult,
    update: StatUpdate,
) -> bool {
    &&& through_after(state.stages@, state.continuation, result)
    &&& counts(update, state.namespace@, result is Err, today)
}

/// Decides whether a worker marks itself busy, and with what.
pub fn worker_mark(
    handler_present: bool,
    continuation: &MiddleWareResult,
    workers_key: &str,
    worker_id: &str,
    now: Timestamp,
) -> (mark: Option<WorkerMark>)
    ensures
        marks(mark, handler_present, *continuation, workers_key@, worker_id@, now),
{
    if !handler_present {
        return None;
    }
    match continuation {
        Ok(agent) => Some(
            WorkerMark {
                key: String::from_str(workers_key),
                field: String::from_str(worker_id),
                queue: agent.job.queue.clone(),
                run_at: now.secs,
                ttl: WORKER_TTL,
            },
        ),
        Err(_) => None,
    }
}

/// Turns a handler's answer into what flows on, and into the removal of the
/// worker's entry where the handler succeeded.
pub fn after_handler(
    agent: JobAgent,
    outcome: JobHandlerResult,
    workers_key: &str,
    worker_id: &str,
) -> (after: (MiddleWareResult, Option<WorkerClear>))
    ensures
        handled(after, agent, outcome, workers_key@, worker_id@),
{
    match outcome {
        Ok(_) => (
            Ok(agent),
            Some(WorkerClear { key: String::from_str(workers_key), field: String::from_str(worker_id) }),
        ),
        Err(error) => (Err(Failure { agent, error }), None),
    }
}

/// The count of a dispatch that ended on the day `today`, failed or not.
pub fn stat_update(namespace: &str, failed: bool, today: &str) -> (update: StatUpdate)
    ensures
        counts(update, namespace@, failed, today@),
{
    StatUpdate {
        failed,
        daily_key: stat_key_on(namespace, failed, today),
        total_key: stat_key(namespace, failed),
        amount: 1,
    }
}

impl<H: JobHandler, M: MiddleWare> Packed<H, M> {
    /// Runs the `before` hooks in registration order and says what the
    /// worker `worker_id` is to write to the workers hash before the
    /// handler runs, if it will run.
    pub fn enter(self, worker_id: &str, now: Timestamp) -> (step: (Entered<H, M>, Option<WorkerMark>))
        ensures
            entered(self, worker_id@, now, step.0, step.1),
    {
        let Packed { handler, stages, agent, class, namespace, workers_key } = self;
        let continuation = run_before(&stages, Ok(agent));
        let mark = worker_mark(handler.is_some(), &continuation, workers_key.as_str(), worker_id, now);
        let next = Entered {
            handler,
            stages,
            continuation,
            class,
            namespace,
            workers_key,
            worker_id: String::from_str(worker_id),
        };
        (next, mark)
    }

    /// [`Packed::enter`] at the time the clock shows.
    pub fn enter_now(self, worker_id: &str) -> (step: (Entered<H, M>, Option<WorkerMark>))
        ensures
            exists|now: Timestamp| #[trigger] entered(self, worker_id@, now, step.0, step.1),
    {
        let now = utc_now();
        let step = self.enter(worker_id, now);
        assert(entered(self, worker_id@, now, step.0, step.1));
        step
    }
}

impl<H: JobHandler, M: MiddleWare> Entered<H, M> {
    /// Runs the handler on a job that arrives unfailed, and says whether
    /// the worker's entry is to be removed. A job that arrives failed passes
    /// by the handler; a job without a handler fails as of unknown class.
    pub fn perform(self) -> (step: (Performed<M>, Option<WorkerClear>))
        ensures
            performed(self, step.0, step.1),
    {
        let Entered { handler, stages, continuation, class, namespace, workers_key, worker_id } = self;
        let (continuation, clear) = match handler {
            None => {
                let agent = match continuation {
                    Ok(agent) => agent,
                    Err(failure) => failure.agent,
                };
                (Err(Failure { agent, error: ErrorKind::UnknownJobClass(class) }), None)
            },
            Some(handler) => match continuation {
                Ok(agent) => {
                    let outcome = handler.perform(&agent);
                    let after = after_handler(agent, outcome, workers_key.as_str(), worker_id.as_str());
                    assert(call_ensures(H::perform, (&handler, &agent), outcome));
                    after
                },
                Err(failure) => (Err(failure), None),
            },
        };
        (Performed { stages, continuation, namespace }, clear)
    }
}

impl<M: MiddleWare> Performed<M> {
    /// Runs the `after` hooks in registration order and counts the
    /// dispatch, by what came out of them, on the day `today`.
    pub fn leave(self, today: &str) -> (end: (MiddleWareResult, StatUpdate))
        ensures
            left(self, today@, end.0, end.1),
    {
        let Performed { stages, continuation, namespace } = self;
        let result = run_after(&stages, continuation);
        let update = stat_update(namespace.as_str(), result.is_err(), today);
        (result, update)
    }

    /// [`Performed::leave`] on the day the clock shows.
    pub fn leave_now(self) -> (end: (MiddleWareResult, StatUpdate))
        ensures
            exists|today: Seq<char>| #[trigger] left(self, today, end.0, end.1),
    {
        let today = utc_today();
        let end = self.leave(today.as_str());
        assert(left(self, today@, end.0, end.1));
        end
    }
}

/// A dispatch is counted once, under one outcome: the two keys that are
/// incremented, each by one, are the day's total and the running total of
/// that outcome, and neither is a counter of the other outcome, on whatever day.
pub proof fn lemma_counted_once(
    update: StatUpdate,
    namespace: Seq<char>,
    failed: bool,
    today: Seq<char>,
    other_day: Seq<char>,
)
    requires
        counts(update, namespace, failed, today),
    ensures
        update.amount == 1,
        update.total_key@ == stat_total(namespace, failed),
        update.daily_key@ == stat_daily(namespace, failed, today),
        update.total_key@ != stat_total(namespace, !failed),
        update.total_key@ != stat_daily(namespace, !failed, other_day),
        update.daily_key@ != stat_total(namespace, !failed),
        update.daily_key@ != stat_daily(namespace, !failed, other_day),
{
    if failed {
        lemma_stat_keys_distinct(namespace, other_day, today);
    } else {
        lemma_stat_keys_distinct(namespace, today, other_day);
    }
}

/// The worker's entry brackets the handler. The entry is written exactly
/// when the handler is about to run, and it expires within five seconds.
/// It is removed only where it was written, from the same hash and field,
/// and it is removed whenever the job comes out of the handler unfailed. (A
/// job that the handler fails keeps its entry until the entry expires.)
pub proof fn lemma_entry_brackets_handler<H: JobHandler, M: MiddleWare>(
    packed: Packed<H, M>,
    worker_id: Seq<char>,
    now: Timestamp,
    state: Entered<H, M>,
    mark: Option<WorkerMark>,
    next: Performed<M>,
    clear: Option<WorkerClear>,
)
    requires
        entered(packed, worker_id, now, state, mark),
        performed(state, next, clear),
    ensures
        mark is Some <==> packed.handler is Some && state.continuation is Ok,
        mark matches Some(m) ==> m.ttl <= 5 && m.key@ == packed.workers_key@ && m.field@
            == worker_id,
        clear matches Some(c) ==> mark matches Some(m) && c.key@ == m.key@ && c.field@ == m.field@,
        mark is Some && next.continuation is Ok ==> clear is Some,
        mark is None ==> clear is None,
{
}

/// A job of a class without a handler never touches the workers hash and
/// comes out of the handler stage as a failure for its unknown class. Unless
/// an `after` hook turns that failure into a success, and so always where
/// there is no middleware, the dispatch is counted as failed.
pub proof fn lemma_unknown_class_fails<H: JobHandler, M: MiddleWare>(
    packed: Packed<H, M>,
    worker_id: Seq<char>,
    now: Timestamp,
    state: Entered<H, M>,
    mark: Option<WorkerMark>,
    next: Performed<M>,
    clear: Option<WorkerClear>,
    today: Seq<char>,
    result: MiddleWareResult,
    update: StatUpdate,
)
    requires
        packed.handler is None,
        entered(packed, worker_id, now, state, mark),
        performed(state, next, clear),
        left(next, today, result, update),
    ensures
        mark is None,
        clear is None,
        next.continuation matches Err(failure) && failure.error == ErrorKind::UnknownJobClass(
            packed.class,
        ),
        packed.stages@.len() == 0 ==> result == next.continuation,
        result is Err ==> update.failed && update.total_key@ == stat_total(packed.namespace@, true)
            && update.daily_key@ == stat_daily(packed.namespace@, true, today) && update.amount
            == 1,
{
    if packed.stages@.len() == 0 {
        lemma_no_stage_no_change(next.stages@, next.continuation, result);
    }
}

} // verus!
