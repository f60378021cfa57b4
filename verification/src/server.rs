//! The server: its configuration, its state, and the decisions of its
//! control loop.

use vstd::prelude::*;
use crate::clock::{utc_now, Timestamp};
use crate::errors::ErrorKind;
use crate::ident::{is_identifier, new_server_id};
use crate::job::{taken_up, Job};
use crate::job_agent::JobAgent;
use crate::job_handler::JobHandler;
use crate::keys::{
    identity, identity_text, namespaced, processes_key, queue_key, queue_name, scoped,
    with_namespace, with_server_id, workers_hash, workers_key,
};
use crate::middleware::MiddleWare;
use crate::pipeline::Packed;
use crate::registry::Registry;
use crate::report::{beats, texts_of, Heartbeat, ProcessInfo, Vitals, HEARTBEAT_TTL};
use crate::text::decimal_text;

verus! {

/// The weight of a queue in the weighted draw, held as the bit pattern of an
/// IEEE 754 binary64 number.
#[derive(Debug, Clone, Copy, PartialEq, Eq, Structural)]
pub struct Weight {
    pub bits: u64,
}

impl Weight {
    /// True when the pattern stands for a finite number above zero: the sign
    /// bit is clear, the exponent is not all ones, and not every bit is zero.
    pub open spec fn is_positive(self) -> bool {
        0 < self.bits < 0x7FF0_0000_0000_0000
    }

    /// The weight with this bit pattern.
    pub fn from_bits(bits: u64) -> (weight: Weight)
        ensures
            weight.bits == bits,
    {
        Weight { bits }
    }

    /// The bit pattern.
    pub fn to_bits(&self) -> (bits: u64)
        ensures
            bits == self.bits,
    {
        self.bits
    }

    /// Decides whether the weight is a finite number above zero.
    pub fn positive(&self) -> (yes: bool)
        ensures
            yes == self.is_positive(),
    {
        0 < self.bits && self.bits < 0x7FF0_0000_0000_0000
    }
}

/// The names in a list of queues, in order.
pub open spec fn names_of(queues: Seq<(String, Weight)>) -> Seq<Seq<char>> {
    Seq::new(queues.len(), |i: int| queues[i].0@)
}

/// The weights in a list of queues, in order.
pub open spec fn weights_of(queues: Seq<(String, Weight)>) -> Seq<Weight> {
    Seq::new(queues.len(), |i: int| queues[i].1)
}

/// What a builder holds.
pub struct BuilderView<H, M> {
    pub concurrency: usize,
    pub middlewares: Seq<M>,
    pub handlers: Map<Seq<char>, H>,
    pub queues: Seq<Seq<char>>,
    pub weights: Seq<Weight>,
}

/// The error that rejects a configuration, if one does: zero concurrency
/// first, then an empty registry, then an empty list of queues.
pub open spec fn config_error<H, M>(config: BuilderView<H, M>) -> Option<ErrorKind> {
    if config.concurrency == 0 {
        Some(ErrorKind::ZeroConcurrency)
    } else if config.handlers == Map::<Seq<char>, H>::empty() {
        Some(ErrorKind::NoJobHandler)
    } else if config.queues.len() == 0 {
        Some(ErrorKind::ZeroQueue)
    } else {
        None
    }
}

/// Collects the configuration of a server.
pub struct SidekiqServerBuilder<H, M> {
    concurrency: usize,
    middlewares: Vec<M>,
    job_handlers: Registry<H>,
    queues: Vec<(String, Weight)>,
}

impl<H, M> View for SidekiqServerBuilder<H, M> {
    type V = BuilderView<H, M>;

    closed spec fn view(&self) -> BuilderView<H, M> {
        BuilderView {
            concurrency: self.concurrency,
            middlewares: self.middlewares@,
            handlers: self.job_handlers@,
            queues: names_of(self.queues@),
            weights: weights_of(self.queues@),
        }
    }
}

impl<H, M> SidekiqServerBuilder<H, M> {
    /// A builder with a concurrency of ten and nothing registered.
    pub fn new() -> (builder: Self)
        ensures
            builder@.concurrency == 10,
            builder@.middlewares == Seq::<M>::empty(),
            builder@.handlers == Map::<Seq<char>, H>::empty(),
            builder@.queues == Seq::<Seq<char>>::empty(),
            builder@.weights == Seq::<Weight>::empty(),
    {
        let builder = SidekiqServerBuilder {
            concurrency: 10,
            middlewares: Vec::new(),
            job_handlers: Registry::new(),
            queues: Vec::new(),
        };
        proof {
            assert(builder@.queues =~= Seq::<Seq<char>>::empty());
            assert(builder@.weights =~= Seq::<Weight>::empty());
        }
        builder
    }

    /// Sets the number of workers.
    pub fn concurrency(&mut self, concurrency: usize) -> (builder: &mut Self)
        ensures
            builder@ == (BuilderView { concurrency, ..old(self)@ }),
            *final(self) == *final(builder),
    {
        self.concurrency = concurrency;
        self
    }

    /// Adds a middleware stage after those already there.
    pub fn middleware(&mut self, middleware: M) -> (builder: &mut Self)
        ensures
            builder@ == (BuilderView {
                middlewares: old(self)@.middlewares.push(middleware),
                ..old(self)@
            }),
            *final(self) == *final(builder),
    {
        self.middlewares.push(middleware);
        self
    }

    /// Registers the handler of the class `name`, in place of an earlier one.
    pub fn job_handler(&mut self, name: &str, handler: H) -> (builder: &mut Self)
        ensures
            builder@ == (BuilderView {
                handlers: old(self)@.handlers.insert(name@, handler),
                ..old(self)@
            }),
            *final(self) == *final(builder),
    {
        self.job_handlers.insert(name, handler);
        self
    }

    /// Adds the queue `name` with its weight after those already there.
    pub fn queue(&mut self, name: &str, weight: Weight) -> (builder: &mut Self)
        ensures
            builder@ == (BuilderView {
                queues: old(self)@.queues.push(name@),
                weights: old(self)@.weights.push(weight),
                ..old(self)@
            }),
            *final(self) == *final(builder),
    {
        self.queues.push((String::from_str(name), weight));
        proof {
            assert(names_of(self.queues@) =~= names_of(old(self).queues@).push(name@));
            assert(weights_of(self.queues@) =~= weights_of(old(self).queues@).push(weight));
        }
        self
    }

    /// Says whether a server can be built, and if not, why not.
    pub fn check(&self) -> (verdict: Result<(), ErrorKind>)
        ensures
            match verdict {
                Ok(_) => config_error(self@) is None,
                Err(error) => config_error(self@) == Some(error),
            },
    {
        if self.concurrency == 0 {
            Err(ErrorKind::ZeroConcurrency)
        } else if self.job_handlers.is_empty() {
            Err(ErrorKind::NoJobHandler)
        } else if self.queues.len() == 0 {
            Err(ErrorKind::ZeroQueue)
        } else {
            Ok(())
        }
    }

    /// A builder holds as many weights as queues.
    pub proof fn lemma_one_weight_per_queue(&self)
        ensures
            self@.queues.len() == self@.weights.len(),
    {
    }
}

/// The seconds a blocking pop waits for a job.
pub const POLL_TIMEOUT: usize = 2;

/// The seconds a server waits for running jobs when told to stop, unless set otherwise.
pub const FORCE_QUIT_TIMEOUT: usize = 10;

/// What the host says of the process that the server runs in.
#[derive(Debug, Clone)]
pub struct Startup {
    /// The host's name, where it could be found out.
    pub hostname: Option<String>,
    /// The id of the process.
    pub pid: usize,
}

/// The name a host goes by: its own, or `unknown`.
pub open spec fn host_name(hostname: Option<String>) -> Seq<char> {
    match hostname {
        Some(name) => name@,
        None => "unknown"@,
    }
}

/// Where a server stands in its life.
#[derive(Debug, Clone, Copy, PartialEq, Eq, Structural)]
pub enum Phase {
    /// Built, and not started.
    Ready,
    /// Polling, dispatching and reporting.
    Running,
    /// Told to stop. A stopped server does nothing more.
    Stopped,
}

/// The signals that a server acts on.
#[derive(Debug, Clone, Copy, PartialEq, Eq, Structural)]
pub enum Signal {
    /// Stop at once.
    Int,
    /// Stop after the running jobs have had their time.
    Usr1,
}

/// A blocking pop: from the right of the list `key`, waiting up to `timeout` seconds.
#[derive(Debug, Clone)]
pub struct PopRequest {
    pub key: String,
    pub timeout: usize,
}

/// What the control loop meets with.
pub enum Event {
    /// Neither a signal nor a tick is waiting; the index of the queue that
    /// the weighted draw chose.
    Idle(usize),
    /// The blocking pop has answered: with nothing, or with the key and the payload.
    Reply(Option<Vec<String>>),
    /// The payload has been decoded into a job.
    Decoded(Job),
    /// Redis or the decoder has failed.
    Failed(ErrorKind),
    /// The two-second clock has ticked.
    Tick,
    /// A signal has arrived.
    Signal(Signal),
}

/// What the control loop is to do next.
pub enum Action<H, M> {
    /// Go on.
    Nothing,
    /// Log the error, and go on.
    Complain(ErrorKind),
    /// Pop from a queue.
    Pop(PopRequest),
    /// Decode the payload into a job.
    Decode(String),
    /// Hand the dispatch to the worker pool.
    Run(Packed<H, M>),
    /// Write the heartbeat.
    Beat(Heartbeat),
    /// Leave the loop, after giving the running jobs up to `wait_secs` seconds.
    Quit { wait_secs: usize },
}

/// The number of busy workers in a list of workers.
pub open spec fn busy_in(workers: Seq<(String, bool)>) -> nat
    decreases workers.len(),
{
    if workers.len() == 0 {
        0
    } else {
        busy_in(workers.drop_last()) + if workers.last().1 {
            1nat
        } else {
            0nat
        }
    }
}

/// What a server holds.
pub struct ServerView<H, M> {
    pub namespace: Seq<char>,
    pub force_quit_timeout: usize,
    pub handlers: Map<Seq<char>, H>,
    pub middlewares: Seq<M>,
    pub queues: Seq<Seq<char>>,
    pub weights: Seq<Weight>,
    pub started_at: Timestamp,
    pub server_id: Seq<char>,
    pub pid: usize,
    pub hostname: Seq<char>,
    pub busy: nat,
    pub concurrency: usize,
    pub phase: Phase,
}

impl<H, M> ServerView<H, M> {
    /// What of the server goes into a heartbeat.
    pub open spec fn vitals(self) -> Vitals {
        Vitals {
            namespace: self.namespace,
            hostname: self.hostname,
            pid: self.pid,
            server_id: self.server_id,
            started_at: self.started_at,
            concurrency: self.concurrency,
            queues: self.queues,
            busy: self.busy,
        }
    }

    /// The identity of the server.
    pub open spec fn identity(self) -> Seq<char> {
        identity_text(self.hostname, self.pid as nat, self.server_id)
    }

    /// What holds of every server that was built: it has a worker, a
    /// handler and a queue, one weight for each queue, and a server id of
    /// twelve letters and digits.
    pub open spec fn well_formed(self) -> bool {
        &&& self.concurrency >= 1
        &&& self.handlers != Map::<Seq<char>, H>::empty()
        &&& self.queues.len() >= 1
        &&& self.queues.len() == self.weights.len()
        &&& is_identifier(self.server_id, 12)
    }
}

/// `server` is what is built from `config` and `startup` with the given
/// server id and time of start: an empty namespace, the default timeout,
/// clones of the handlers and the middleware, the queues and the weights, no
/// busy worker, and not started.
pub open spec fn assembled<H: Clone, M: Clone>(
    config: BuilderView<H, M>,
    startup: Startup,
    server_id: Seq<char>,
    started_at: Timestamp,
    server: ServerView<H, M>,
) -> bool {
    &&& server.namespace == Seq::<char>::empty()
    &&& server.force_quit_timeout == FORCE_QUIT_TIMEOUT
    &&& server.handlers.dom() == config.handlers.dom()
    &&& forall|class: Seq<char>| #[trigger]
        config.handlers.contains_key(class) ==> cloned(
            config.handlers[class],
            server.handlers[class],
        )
    &&& server.middlewares.len() == config.middlewares.len()
    &&& forall|i: int|
        0 <= i < config.middlewares.len() ==> cloned(
            config.middlewares[i],
            #[trigger] server.middlewares[i],
        )
    &&& server.queues == config.queues
    &&& server.weights == config.weights
    &&& server.started_at == started_at
    &&& server.server_id == server_id
    &&& server.pid == startup.pid
    &&& server.hostname == host_name(startup.hostname)
    &&& server.busy == 0
    &&& server.concurrency == config.concurrency
    &&& server.phase == Phase::Ready
}

/// `request` pops from the queue with index `choice`, with the poll timeout.
pub open spec fn polls<H, M>(request: PopRequest, server: ServerView<H, M>, choice: int) -> bool {
    &&& 0 <= choice < server.queues.len()
    &&& request.key@ == queue_key(server.namespace, server.queues[choice])
    &&& request.timeout == POLL_TIMEOUT
}

/// `packed` is the dispatch of `job` on `server`: it carries the job, a
/// clone of the handler registered for the job's class if there is one, and
/// clones of the middleware in registration order.
pub open spec fn packed_from<H: Clone, M: Clone>(
    server: ServerView<H, M>,
    job: Job,
    packed: Packed<H, M>,
) -> bool {
    &&& packed.agent.job == job
    &&& packed.class@ == job.class@
    &&& packed.namespace@ == server.namespace
    &&& packed.workers_key@ == workers_hash(server.namespace, server.server_id)
    &&& match packed.handler {
        Some(handler) => server.handlers.contains_key(job.class@) && cloned(
            server.handlers[job.class@],
            handler,
        ),
        None => !server.handlers.contains_key(job.class@),
    }
    &&& packed.stages@.len() == server.middlewares.len()
    &&& forall|i: int|
        0 <= i < server.middlewares.len() ==> cloned(
            server.middlewares[i],
            #[trigger] packed.stages@[i],
        )
}

/// What a reply to a blocking pop holds: no payload where nothing was
/// popped, the second part where something was, and an error where the reply
/// has fewer than two parts.
pub open spec fn reply_payload(reply: Option<Vec<String>>, payload: Result<Option<String>, ErrorKind>) -> bool {
    match reply {
        None => payload == Ok::<Option<String>, ErrorKind>(None),
        Some(parts) => if parts@.len() >= 2 {
            payload matches Ok(Some(text)) && text@ == parts@[1]@
        } else {
            payload matches Err(ErrorKind::RedisUnavailable(detail)) && detail@
                == "malformed reply to a blocking pop"@
        },
    }
}

/// One step of the control loop: from the server as it was and what the
/// loop met with at `now`, to the server as it is and what the loop is to
/// do. Only a running server acts, and only a signal changes it: it stops.
pub open spec fn stepped<H: Clone, M: Clone>(
    before: ServerView<H, M>,
    event: Event,
    now: Timestamp,
    after: ServerView<H, M>,
    action: Action<H, M>,
) -> bool {
    if before.phase != Phase::Running {
        after == before && action is Nothing
    } else {
        match event {
            Event::Idle(choice) => {
                &&& after == before
                &&& if choice < before.queues.len() {
                    action matches Action::Pop(request) && polls(request, before, choice as int)
                } else {
                    action is Nothing
                }
            },
            Event::Reply(reply) => {
                &&& after == before
                &&& match action {
                    Action::Nothing => reply_payload(reply, Ok(None)),
                    Action::Decode(text) => reply_payload(reply, Ok(Some(text))),
                    Action::Complain(error) => reply_payload(reply, Err(error)),
                    _ => false,
                }
            },
            Event::Decoded(job) => {
                &&& after == before
                &&& action matches Action::Run(packed)
                &&& taken_up(job, before.namespace, now, packed.agent.job)
                &&& packed_from(before, packed.agent.job, packed)
            },
            Event::Failed(error) => after == before && action == Action::<H, M>::Complain(error),
            Event::Tick => {
                &&& after == before
                &&& action matches Action::Beat(heartbeat)
                &&& beats(heartbeat, before.vitals(), now)
            },
            Event::Signal(signal) => {
                &&& after == (ServerView { phase: Phase::Stopped, ..before })
                &&& action matches Action::Quit { wait_secs }
                &&& wait_secs == match signal {
                    Signal::Usr1 => before.force_quit_timeout,
                    Signal::Int => 0usize,
                }
            },
        }
    }
}

/// Takes the payload out of the reply to a blocking pop.
pub fn payload_of(reply: Option<Vec<String>>) -> (payload: Result<Option<String>, ErrorKind>)
    ensures
        reply_payload(reply, payload),
{
    match reply {
        None => Ok(None),
        Some(parts) => {
            if parts.len() >= 2 {
                Ok(Some(parts[1].clone()))
            } else {
                Err(ErrorKind::RedisUnavailable(String::from_str("malformed reply to a blocking pop")))
            }
        },
    }
}

/// A running server: what it is configured with, who it is, and where it
/// stands in its life.
pub struct SidekiqServer<H, M> {
    /// Prepended to every key, with a colon, unless it is empty.
    pub namespace: String,
    /// The seconds that running jobs are given when the server is told to stop.
    pub force_quit_timeout: usize,
    job_handlers: Registry<H>,
    middlewares: Vec<M>,
    queues: Vec<(String, Weight)>,
    started_at: Timestamp,
    rs: String,
    pid: usize,
    hostname: String,
    /// The workers by id, each with its busy flag. Only the control loop
    /// owns this list, and the workers report to Redis themselves, so no
    /// worker is ever marked busy here.
    worker_info: Vec<(String, bool)>,
    concurrency: usize,
    phase: Phase,
}

impl<H, M> View for SidekiqServer<H, M> {
    type V = ServerView<H, M>;

    closed spec fn view(&self) -> ServerView<H, M> {
        ServerView {
            namespace: self.namespace@,
            force_quit_timeout: self.force_quit_timeout,
            handlers: self.job_handlers@,
            middlewares: self.middlewares@,
            queues: names_of(self.queues@),
            weights: weights_of(self.queues@),
            started_at: self.started_at,
            server_id: self.rs@,
            pid: self.pid,
            hostname: self.hostname@,
            busy: busy_in(self.worker_info@),
            concurrency: self.concurrency,
            phase: self.phase,
        }
    }
}

impl<H: JobHandler + Clone, M: MiddleWare + Clone> SidekiqServerBuilder<H, M> {
    /// Builds the server, or says what is wrong with the configuration.
    pub fn build(&self, startup: Startup) -> (built: Result<SidekiqServer<H, M>, ErrorKind>)
        ensures
            match built {
                Ok(server) => {
                    &&& config_error(self@) is None
                    &&& assembled(self@, startup, server@.server_id, server@.started_at, server@)
                    &&& server@.well_formed()
                },
                Err(error) => config_error(self@) == Some(error),
            },
    {
        SidekiqServer::with_builder(self, startup)
    }
}

impl<H: JobHandler + Clone, M: MiddleWare + Clone> SidekiqServer<H, M> {
    /// Builds a server from a configuration, with a fresh server id and the
    /// time that the clock shows as its start.
    pub fn with_builder(builder: &SidekiqServerBuilder<H, M>, startup: Startup) -> (built: Result<
        Self,
        ErrorKind,
    >)
        ensures
            match built {
                Ok(server) => {
                    &&& config_error(builder@) is None
                    &&& assembled(builder@, startup, server@.server_id, server@.started_at, server@)
                    &&& server@.well_formed()
                },
                Err(error) => config_error(builder@) == Some(error),
            },
    {
        match builder.check() {
            Err(error) => Err(error),
            Ok(_) => {
                let server_id = new_server_id();
                let now = utc_now();
                Self::assemble(builder, startup, server_id, now)
            },
        }
    }

    /// Builds a server from a configuration, with the server id and the
    /// time of start that are given.
    pub fn assemble(
        builder: &SidekiqServerBuilder<H, M>,
        startup: Startup,
        server_id: String,
        started_at: Timestamp,
    ) -> (built: Result<Self, ErrorKind>)
        ensures
            match built {
                Ok(server) => {
                    &&& config_error(builder@) is None
                    &&& assembled(builder@, startup, server_id@, started_at, server@)
                    &&& is_identifier(server_id@, 12) ==> server@.well_formed()
                },
                Err(error) => config_error(builder@) == Some(error),
            },
    {
        match builder.check() {
            Err(error) => {
                return Err(error);
            },
            Ok(_) => {},
        }
        let mut queues: Vec<(String, Weight)> = Vec::new();
        let mut i: usize = 0;
        while i < builder.queues.len()
            invariant
                i <= builder.queues.len(),
                queues@.len() == i,
                forall|j: int|
                    0 <= j < i ==> (#[trigger] queues@[j]).0@ == builder.queues@[j].0@ && queues@[j].1
                        == builder.queues@[j].1,
            decreases builder.queues.len() - i,
        {
            queues.push((builder.queues[i].0.clone(), builder.queues[i].1));
            i = i + 1;
        }
        let hostname = match startup.hostname {
            Some(name) => name,
            None => String::from_str("unknown"),
        };
        let server = SidekiqServer {
            namespace: String::new(),
            force_quit_timeout: FORCE_QUIT_TIMEOUT,
            job_handlers: builder.job_handlers.duplicate(),
            middlewares: builder.middlewares.clone(),
            queues,
            started_at,
            rs: server_id,
            pid: startup.pid,
            hostname,
            worker_info: Vec::new(),
            concurrency: builder.concurrency,
            phase: Phase::Ready,
        };
        proof {
            assert(server@.queues =~= builder@.queues);
            assert(server@.weights =~= builder@.weights);
            assert(builder@.handlers.dom() =~= server@.handlers.dom());
            if server@.handlers == Map::<Seq<char>, H>::empty() {
                assert(builder@.handlers =~= Map::<Seq<char>, H>::empty());
            }
        }
        Ok(server)
    }

    /// The identity of the server: host, process id and server id.
    pub fn identity(&self) -> (id: String)
        ensures
            id@ == self@.identity(),
    {
        identity(self.hostname.as_str(), self.pid, self.rs.as_str())
    }

    /// Puts `snippet` under the server's namespace.
    pub fn with_namespace(&self, snippet: &str) -> (key: String)
        ensures
            key@ == namespaced(self@.namespace, snippet@),
    {
        with_namespace(self.namespace.as_str(), snippet)
    }

    /// Puts `snippet` under the server's id.
    pub fn with_server_id(&self, snippet: &str) -> (key: String)
        ensures
            key@ == scoped(self@.server_id, snippet@),
    {
        with_server_id(self.rs.as_str(), snippet)
    }

    /// The key of the list behind the queue `name`.
    pub fn queue_name(&self, name: &str) -> (key: String)
        ensures
            key@ == queue_key(self@.namespace, name@),
    {
        queue_name(self.namespace.as_str(), name)
    }

    /// The key of the server's workers hash.
    pub fn workers_key(&self) -> (key: String)
        ensures
            key@ == workers_hash(self@.namespace, self@.server_id),
    {
        workers_key(self.namespace.as_str(), self.rs.as_str())
    }

    /// The names of the queues, in the order of registration.
    pub fn queues(&self) -> (names: Vec<String>)
        ensures
            texts_of(names@) == self@.queues,
    {
        let mut names: Vec<String> = Vec::new();
        let mut i: usize = 0;
        while i < self.queues.len()
            invariant
                i <= self.queues.len(),
                names@.len() == i,
                forall|j: int| 0 <= j < i ==> (#[trigger] names@[j])@ == self.queues@[j].0@,
            decreases self.queues.len() - i,
        {
            names.push(self.queues[i].0.clone());
            i = i + 1;
        }
        proof {
            assert(texts_of(names@) =~= self@.queues);
        }
        names
    }

    /// The weights of the queues, in the order of registration.
    pub fn weights(&self) -> (weights: Vec<Weight>)
        ensures
            weights@ == self@.weights,
    {
        let mut weights: Vec<Weight> = Vec::new();
        let mut i: usize = 0;
        while i < self.queues.len()
            invariant
                i <= self.queues.len(),
                weights@.len() == i,
                forall|j: int| 0 <= j < i ==> #[trigger] weights@[j] == self.queues@[j].1,
            decreases self.queues.len() - i,
        {
            weights.push(self.queues[i].1);
            i = i + 1;
        }
        proof {
            assert(weights@ =~= self@.weights);
        }
        weights
    }

    /// The number of workers.
    pub fn concurrency(&self) -> (n: usize)
        ensures
            n == self@.concurrency,
    {
        self.concurrency
    }

    /// Where the server stands in its life.
    pub fn phase(&self) -> (phase: Phase)
        ensures
            phase == self@.phase,
    {
        self.phase
    }

    /// The number of workers that are marked busy.
    pub fn busy_workers(&self) -> (n: usize)
        ensures
            n == self@.busy,
    {
        let mut n: usize = 0;
        let mut i: usize = 0;
        while i < self.worker_info.len()
            invariant
                i <= self.worker_info.len(),
                n <= i,
                n == busy_in(self.worker_info@.take(i as int)),
            decreases self.worker_info.len() - i,
        {
            proof {
                assert(self.worker_info@.take(i + 1).drop_last() =~= self.worker_info@.take(i as int));
            }
            if self.worker_info[i].1 {
                n = n + 1;
            }
            i = i + 1;
        }
        proof {
            assert(self.worker_info@.take(i as int) =~= self.worker_info@);
        }
        n
    }

    /// The blocking pop on the queue that the weighted draw chose, if there
    /// is a queue with that index.
    pub fn pop_request(&self, choice: usize) -> (request: Option<PopRequest>)
        ensures
            match request {
                Some(r) => polls(r, self@, choice as int),
                None => choice >= self@.queues.len(),
            },
    {
        if choice < self.queues.len() {
            let key = queue_name(self.namespace.as_str(), self.queues[choice].0.as_str());
            Some(PopRequest { key, timeout: POLL_TIMEOUT })
        } else {
            None
        }
    }

    /// Packs the dispatch of `job`: the job with a clone of its handler, if
    /// its class has one, and clones of the middleware.
    pub fn pack_job(&self, job: Job) -> (packed: Packed<H, M>)
        ensures
            packed_from(self@, job, packed),
    {
        let class = job.class.clone();
        let handler = match self.job_handlers.get(class.as_str()) {
            Some(found) => Some(found.clone()),
            None => None,
        };
        Packed {
            handler,
            stages: self.middlewares.clone(),
            agent: JobAgent::new(job),
            class,
            namespace: self.namespace.clone(),
            workers_key: workers_key(self.namespace.as_str(), self.rs.as_str()),
        }
    }

    /// The heartbeat of the server at `now`.
    pub fn report_alive_at(&self, now: Timestamp) -> (heartbeat: Heartbeat)
        ensures
            beats(heartbeat, self@.vitals(), now),
    {
        let id = identity(self.hostname.as_str(), self.pid, self.rs.as_str());
        let info = ProcessInfo {
            hostname: self.hostname.clone(),
            started_at: self.started_at,
            pid: self.pid,
            concurrency: self.concurrency,
            queues: self.queues(),
            labels: Vec::new(),
            identity: id.clone(),
        };
        Heartbeat {
            key: with_namespace(self.namespace.as_str(), id.as_str()),
            info,
            busy: decimal_text(self.busy_workers() as u64),
            beat: now.seconds(),
            ttl: HEARTBEAT_TTL,
            processes_key: processes_key(self.namespace.as_str()),
            member: id,
        }
    }

    /// The heartbeat of the server at the time the clock shows.
    pub fn report_alive(&self) -> (heartbeat: Heartbeat)
        ensures
            exists|now: Timestamp| #[trigger] beats(heartbeat, self@.vitals(), now),
    {
        let now = utc_now();
        let heartbeat = self.report_alive_at(now);
        assert(beats(heartbeat, self@.vitals(), now));
        heartbeat
    }

    /// Sets a server that was built to running. A server that runs or has
    /// stopped is left as it is.
    pub fn start(&mut self) -> (began: bool)
        ensures
            began == (old(self)@.phase == Phase::Ready),
            final(self)@ == if began {
                ServerView { phase: Phase::Running, ..old(self)@ }
            } else {
                old(self)@
            },
    {
        match self.phase {
            Phase::Ready => {
                self.phase = Phase::Running;
                true
            },
            _ => false,
        }
    }

    /// Decides one step of the control loop, at `now`.
    pub fn step_at(&mut self, event: Event, now: Timestamp) -> (action: Action<H, M>)
        ensures
            stepped(old(self)@, event, now, final(self)@, action),
    {
        match self.phase {
            Phase::Running => {},
            _ => {
                return Action::Nothing;
            },
        }
        match event {
            Event::Idle(choice) => match self.pop_request(choice) {
                Some(request) => Action::Pop(request),
                None => Action::Nothing,
            },
            Event::Reply(reply) => match payload_of(reply) {
                Ok(None) => Action::Nothing,
                Ok(Some(text)) => Action::Decode(text),
                Err(error) => Action::Complain(error),
            },
            Event::Decoded(job) => {
                let job = job.stamp(self.namespace.as_str(), now);
                Action::Run(self.pack_job(job))
            },
            Event::Failed(error) => Action::Complain(error),
            Event::Tick => Action::Beat(self.report_alive_at(now)),
            Event::Signal(signal) => {
                let wait_secs = match signal {
                    Signal::Usr1 => self.force_quit_timeout,
                    Signal::Int => 0,
                };
                self.phase = Phase::Stopped;
                Action::Quit { wait_secs }
            },
        }
    }

    /// Decides one step of the control loop, at the time the clock shows.
    pub fn step(&mut self, event: Event) -> (action: Action<H, M>)
        ensures
            exists|now: Timestamp| #[trigger] stepped(old(self)@, event, now, final(self)@, action),
    {
        let now = utc_now();
        let action = self.step_at(event, now);
        assert(stepped(old(self)@, event, now, self@, action));
        action
    }
}

/// A server that has stopped stays stopped and asks for nothing: no pop, no
/// dispatch, no heartbeat, whatever the loop meets with.
pub proof fn lemma_stopped_server_is_quiet<H: Clone, M: Clone>(
    before: ServerView<H, M>,
    event: Event,
    now: Timestamp,
    after: ServerView<H, M>,
    action: Action<H, M>,
)
    requires
        before.phase == Phase::Stopped,
        stepped(before, event, now, after, action),
    ensures
        action is Nothing,
        after == before,
        after.phase == Phase::Stopped,
{
}

/// A poll that finds the queue empty asks for nothing and leaves the server as it was.
pub proof fn lemma_empty_poll_changes_nothing<H: Clone, M: Clone>(
    before: ServerView<H, M>,
    now: Timestamp,
    after: ServerView<H, M>,
    action: Action<H, M>,
)
    requires
        stepped(before, Event::Reply(None), now, after, action),
    ensures
        action is Nothing,
        after == before,
{
}

/// A signal stops a running server, and the loop is told to quit: after the
/// configured timeout on `Usr1`, at once on `Int`.
pub proof fn lemma_signal_stops<H: Clone, M: Clone>(
    before: ServerView<H, M>,
    signal: Signal,
    now: Timestamp,
    after: ServerView<H, M>,
    action: Action<H, M>,
)
    requires
        before.phase == Phase::Running,
        stepped(before, Event::Signal(signal), now, after, action),
    ensures
        after.phase == Phase::Stopped,
        action matches Action::Quit { wait_secs } && (signal == Signal::Usr1 ==> wait_secs
            == before.force_quit_timeout) && (signal == Signal::Int ==> wait_secs == 0),
{
}

/// A step changes nothing of a server but its phase, and keeps a
/// well-formed server well-formed.
pub proof fn lemma_step_keeps_configuration<H: Clone, M: Clone>(
    before: ServerView<H, M>,
    event: Event,
    now: Timestamp,
    after: ServerView<H, M>,
    action: Action<H, M>,
)
    requires
        stepped(before, event, now, after, action),
    ensures
        after == (ServerView { phase: after.phase, ..before }),
        before.well_formed() ==> after.well_formed(),
{
}

} // verus!
