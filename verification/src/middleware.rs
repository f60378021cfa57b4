//! Middleware: the stages that wrap a handler, and how they follow one another.

use vstd::prelude::*;
use crate::errors::ErrorKind;
use crate::job_agent::JobAgent;

verus! {

/// A dispatch that has failed: the job, and why.
#[derive(Debug, Clone)]
pub struct Failure {
    pub agent: JobAgent,
    pub error: ErrorKind,
}

/// What flows from stage to stage: the job while all is well, else the failure.
pub type MiddleWareResult = Result<JobAgent, Failure>;

/// A stage that wraps the handler. It sees what flows towards the handler
/// and what flows back, and may change either, a failure into a success too.
pub trait MiddleWare {
    /// Called on the way in, before the handler.
    fn before(&self, continuation: MiddleWareResult) -> MiddleWareResult;

    /// Called on the way out, after the handler.
    fn after(&self, continuation: MiddleWareResult) -> MiddleWareResult;
}

/// The job that a continuation carries, whether it has failed or not.
pub open spec fn agent_of(continuation: MiddleWareResult) -> JobAgent {
    match continuation {
        Ok(agent) => agent,
        Err(failure) => failure.agent,
    }
}

/// `trace` records a pass through the `before` hooks of `stages` in
/// registration order: each entry is what the hook of the stage before it
/// returned for the entry before it.
pub open spec fn before_trace<M: MiddleWare>(stages: Seq<M>, trace: Seq<MiddleWareResult>) -> bool {
    &&& trace.len() == stages.len() + 1
    &&& forall|i: int|
        0 <= i < stages.len() ==> call_ensures(
            M::before,
            (&stages[i], trace[i]),
            #[trigger] trace[i + 1],
        )
}

/// `trace` records a pass through the `after` hooks of `stages` in
/// registration order.
pub open spec fn after_trace<M: MiddleWare>(stages: Seq<M>, trace: Seq<MiddleWareResult>) -> bool {
    &&& trace.len() == stages.len() + 1
    &&& forall|i: int|
        0 <= i < stages.len() ==> call_ensures(
            M::after,
            (&stages[i], trace[i]),
            #[trigger] trace[i + 1],
        )
}

/// The `before` hooks of `stages`, applied in registration order, can turn `seed` into `out`.
pub open spec fn through_before<M: MiddleWare>(
    stages: Seq<M>,
    seed: MiddleWareResult,
    out: MiddleWareResult,
) -> bool {
    exists|trace: Seq<MiddleWareResult>| #[trigger]
        before_trace(stages, trace) && trace[0] == seed && trace.last() == out
}

/// The `after` hooks of `stages`, applied in registration order, can turn `seed` into `out`.
pub open spec fn through_after<M: MiddleWare>(
    stages: Seq<M>,
    seed: MiddleWareResult,
    out: MiddleWareResult,
) -> bool {
    exists|trace: Seq<MiddleWareResult>| #[trigger]
        after_trace(stages, trace) && trace[0] == seed && trace.last() == out
}

/// Hands `seed` to the `before` hook of each stage in registration order,
/// each hook getting what the one before it returned.
pub fn run_before<M: MiddleWare>(stages: &Vec<M>, seed: MiddleWareResult) -> (out: MiddleWareResult)
    ensures
        through_before(stages@, seed, out),
{
    let ghost mut trace: Seq<MiddleWareResult> = seq![seed];
    let mut current = seed;
    let mut i: usize = 0;
    while i < stages.len()
        invariant
            i <= stages.len(),
            trace.len() == i + 1,
            trace[0] == seed,
            trace[i as int] == current,
            forall|j: int|
                0 <= j < i ==> call_ensures(
                    M::before,
                    (&stages@[j], trace[j]),
                    #[trigger] trace[j + 1],
                ),
        decreases stages.len() - i,
    {
        current = stages[i].before(current);
        proof {
            trace = trace.push(current);
        }
        i = i + 1;
    }
    proof {
        assert(before_trace(stages@, trace));
    }
    current
}

/// Hands `seed` to the `after` hook of each stage in registration order,
/// each hook getting what the one before it returned.
pub fn run_after<M: MiddleWare>(stages: &Vec<M>, seed: MiddleWareResult) -> (out: MiddleWareResult)
    ensures
        through_after(stages@, seed, out),
{
    let ghost mut trace: Seq<MiddleWareResult> = seq![seed];
    let mut current = seed;
    let mut i: usize = 0;
    while i < stages.len()
        invariant
            i <= stages.len(),
            trace.len() == i + 1,
            trace[0] == seed,
            trace[i as int] == current,
            forall|j: int|
                0 <= j < i ==> call_ensures(
                    M::after,
                    (&stages@[j], trace[j]),
                    #[trigger] trace[j + 1],
                ),
        decreases stages.len() - i,
    {
        current = stages[i].after(current);
        proof {
            trace = trace.push(current);
        }
        i = i + 1;
    }
    proof {
        assert(after_trace(stages@, trace));
    }
    current
}

/// A chain without stages hands back what it was given.
pub proof fn lemma_no_stage_no_change<M: MiddleWare>(
    stages: Seq<M>,
    seed: MiddleWareResult,
    out: MiddleWareResult,
)
    requires
        stages.len() == 0,
    ensures
        through_before(stages, seed, out) <==> out == seed,
        through_after(stages, seed, out) <==> out == seed,
{
    let trace = seq![seed];
    assert(before_trace(stages, trace) && trace[0] == seed && trace.last() == seed);
    assert(after_trace(stages, trace) && trace[0] == seed && trace.last() == seed);
}

} // verus!
