use std::cell::{Cell, RefCell};
use std::collections::HashMap;
use std::rc::Rc;

use sidekiq_rs::clock::Timestamp;
use sidekiq_rs::errors::ErrorKind;
use sidekiq_rs::job::{Job, RetryInfo};
use sidekiq_rs::job_agent::JobAgent;
use sidekiq_rs::job_handler::{JobHandler, JobHandlerResult};
use sidekiq_rs::middleware::{run_after, run_before, Failure, MiddleWare, MiddleWareResult};
use sidekiq_rs::pipeline::{after_handler, stat_update, worker_mark, Packed, StatUpdate, WORKER_TTL};
use sidekiq_rs::server::{SidekiqServer, SidekiqServerBuilder, Startup, Weight};
use sidekiq_rs::JobSuccessType;

type Log = Rc<RefCell<Vec<String>>>;

/// A handler that notes its calls and answers as it was told to.
#[derive(Clone)]
struct Scripted {
    log: Log,
    failures_left: Rc<Cell<u32>>,
    answer: JobSuccessType,
}

impl Scripted {
    fn succeeding(log: &Log) -> Scripted {
        Scripted { log: log.clone(), failures_left: Rc::new(Cell::new(0)), answer: JobSuccessType::Success }
    }

    fn failing(log: &Log, times: u32) -> Scripted {
        Scripted { log: log.clone(), failures_left: Rc::new(Cell::new(times)), answer: JobSuccessType::Success }
    }
}

impl JobHandler for Scripted {
    fn perform(&self, agent: &JobAgent) -> JobHandlerResult {
        self.log.borrow_mut().push(format!("perform {}", agent.job().jid));
        if self.failures_left.get() > 0 {
            self.failures_left.set(self.failures_left.get() - 1);
            Err(ErrorKind::Handler("boom".to_string()))
        } else {
            Ok(self.answer)
        }
    }
}

/// A stage that notes its calls and can be told to fail the job on the way in
/// or to rescue it on the way out.
#[derive(Clone)]
struct Stage {
    name: &'static str,
    log: Log,
    fail_before: bool,
    rescue_after: bool,
}

impl Stage {
    fn plain(name: &'static str, log: &Log) -> Stage {
        Stage { name, log: log.clone(), fail_before: false, rescue_after: false }
    }
}

impl MiddleWare for Stage {
    fn before(&self, continuation: MiddleWareResult) -> MiddleWareResult {
        self.log.borrow_mut().push(format!("{}.before", self.name));
        match continuation {
            Ok(agent) if self.fail_before => {
                Err(Failure { agent, error: ErrorKind::Handler("rejected".to_string()) })
            }
            other => other,
        }
    }

    fn after(&self, continuation: MiddleWareResult) -> MiddleWareResult {
        self.log.borrow_mut().push(format!("{}.after", self.name));
        match continuation {
            Err(failure) if self.rescue_after => {
                let mut agent = failure.agent;
                let count = agent.job().retry_info.as_ref().map(|r| r.retry_count + 1).unwrap_or(0);
                agent.set_retry_info(Some(RetryInfo {
                    retry_count: count,
                    error_message: failure.error.message(),
                    error_class: "Handler".to_string(),
                    failed_at: Timestamp { secs: 100, nanos: 0 },
                    retried_at: None,
                }));
                Ok(agent)
            }
            other => other,
        }
    }
}

fn job(class: &str, jid: &str) -> Job {
    Job {
        class: class.to_string(),
        jid: jid.to_string(),
        queue: "default".to_string(),
        args: vec![serde_json::Value::from(1), serde_json::Value::from(2)],
        retry_info: None,
        namespace: String::new(),
        extra: Vec::new(),
    }
}

fn server(handler: Scripted, stages: Vec<Stage>) -> SidekiqServer<Scripted, Stage> {
    let mut builder: SidekiqServerBuilder<Scripted, Stage> = SidekiqServerBuilder::new();
    builder.concurrency(2).queue("default", Weight::from_bits(1.0f64.to_bits()));
    builder.job_handler("echo", handler);
    for stage in stages {
        builder.middleware(stage);
    }
    let built = SidekiqServer::assemble(
        &builder,
        Startup { hostname: Some("web-1".to_string()), pid: 7 },
        "abcdefghijkl".to_string(),
        Timestamp { secs: 1, nanos: 0 },
    );
    match built {
        Ok(server) => server,
        Err(error) => panic!("{}", error.message()),
    }
}

/// What a worker would leave in Redis: the workers hash and the counters.
#[derive(Default)]
struct Redis {
    hashes: HashMap<String, HashMap<String, String>>,
    counters: HashMap<String, u64>,
    hash_writes: usize,
}

impl Redis {
    fn count(&self, key: &str) -> u64 {
        self.counters.get(key).copied().unwrap_or(0)
    }

    fn bump(&mut self, update: &StatUpdate) {
        *self.counters.entry(update.daily_key.clone()).or_insert(0) += update.amount;
        *self.counters.entry(update.total_key.clone()).or_insert(0) += update.amount;
    }

    fn dispatch(&mut self, packed: Packed<Scripted, Stage>, today: &str) -> MiddleWareResult {
        let (entered, mark) = packed.enter("w0rk3r1d9", Timestamp { secs: 1477395954, nanos: 5 });
        if let Some(mark) = mark {
            assert_eq!(mark.ttl, 5);
            assert_eq!(mark.run_at, 1477395954);
            assert_eq!(mark.queue, "default");
            self.hashes.entry(mark.key).or_default().insert(mark.field, mark.queue);
            self.hash_writes += 1;
        }
        let (performed, clear) = entered.perform();
        if let Some(clear) = clear {
            let removed = self.hashes.entry(clear.key).or_default().remove(&clear.field);
            assert!(removed.is_some());
        }
        let (result, update) = performed.leave(today);
        self.bump(&update);
        result
    }
}

#[test]
fn happy_path_counts_processed_and_clears_the_worker() {
    let log: Log = Rc::new(RefCell::new(Vec::new()));
    let server = server(Scripted::succeeding(&log), Vec::new());
    let mut redis = Redis::default();
    let result = redis.dispatch(server.pack_job(job("echo", "abc")), "2016-10-25");
    assert!(result.is_ok());
    assert_eq!(redis.count("stat:processed"), 1);
    assert_eq!(redis.count("stat:processed:2016-10-25"), 1);
    assert_eq!(redis.count("stat:failed"), 0);
    assert_eq!(redis.count("stat:failed:2016-10-25"), 0);
    assert_eq!(redis.hash_writes, 1);
    assert!(redis.hashes["abcdefghijkl:workers"].is_empty());
    assert_eq!(*log.borrow(), vec!["perform abc".to_string()]);
}

#[test]
fn worker_entry_is_written_before_and_removed_after_the_handler() {
    let log: Log = Rc::new(RefCell::new(Vec::new()));
    let mut server = server(Scripted::succeeding(&log), Vec::new());
    server.namespace = "app".to_string();
    let (entered, mark) = server.pack_job(job("echo", "abc")).enter("w0rk3r1d9", Timestamp { secs: 20, nanos: 0 });
    let mark = mark.unwrap();
    assert_eq!(mark.key, "app:abcdefghijkl:workers");
    assert_eq!(mark.field, "w0rk3r1d9");
    assert_eq!(mark.queue, "default");
    assert_eq!(mark.run_at, 20);
    assert_eq!(mark.ttl, 5);
    assert_eq!(WORKER_TTL, 5);
    assert!(log.borrow().is_empty());
    assert_eq!(entered.continuation.as_ref().unwrap().job().jid, "abc");
    let (_, clear) = entered.perform();
    let clear = clear.unwrap();
    assert_eq!(clear.key, "app:abcdefghijkl:workers");
    assert_eq!(clear.field, "w0rk3r1d9");
    assert_eq!(*log.borrow(), vec!["perform abc".to_string()]);
}

#[test]
fn unknown_class_counts_failed_and_never_touches_the_workers_hash() {
    let log: Log = Rc::new(RefCell::new(Vec::new()));
    let server = server(Scripted::succeeding(&log), Vec::new());
    let mut redis = Redis::default();
    let result = redis.dispatch(server.pack_job(job("missing", "x")), "2016-10-25");
    let failure = result.unwrap_err();
    assert_eq!(failure.error, ErrorKind::UnknownJobClass("missing".to_string()));
    assert_eq!(failure.error.message(), "unknown job class 'missing'");
    assert_eq!(failure.agent.job().jid, "x");
    assert_eq!(redis.count("stat:failed"), 1);
    assert_eq!(redis.count("stat:failed:2016-10-25"), 1);
    assert_eq!(redis.count("stat:processed"), 0);
    assert_eq!(redis.hash_writes, 0);
    assert!(redis.hashes.is_empty());
    assert!(log.borrow().is_empty());
}

#[test]
fn failing_handler_counts_failed_and_leaves_the_entry_to_expire() {
    let log: Log = Rc::new(RefCell::new(Vec::new()));
    let server = server(Scripted::failing(&log, 1), Vec::new());
    let (entered, mark) = server.pack_job(job("echo", "abc")).enter("w0rk3r1d9", Timestamp { secs: 20, nanos: 0 });
    assert!(mark.is_some());
    let (performed, clear) = entered.perform();
    assert!(clear.is_none());
    let (result, update) = performed.leave("2016-10-25");
    assert_eq!(result.unwrap_err().error, ErrorKind::Handler("boom".to_string()));
    assert!(update.failed);
    assert_eq!(update.total_key, "stat:failed");
    assert_eq!(update.daily_key, "stat:failed:2016-10-25");
    assert_eq!(update.amount, 1);
}

#[test]
fn hooks_run_in_registration_order_around_the_handler() {
    let log: Log = Rc::new(RefCell::new(Vec::new()));
    let stages = vec![Stage::plain("m1", &log), Stage::plain("m2", &log), Stage::plain("m3", &log)];
    let server = server(Scripted::succeeding(&log), stages);
    let mut redis = Redis::default();
    let result = redis.dispatch(server.pack_job(job("echo", "abc")), "2016-10-25");
    assert!(result.is_ok());
    assert_eq!(
        *log.borrow(),
        vec!["m1.before", "m2.before", "m3.before", "perform abc", "m1.after", "m2.after", "m3.after"]
    );
    assert_eq!(redis.count("stat:processed"), 1);
}

#[test]
fn failed_before_hook_skips_the_handler_and_still_runs_every_after_hook() {
    let log: Log = Rc::new(RefCell::new(Vec::new()));
    let mut gate = Stage::plain("m1", &log);
    gate.fail_before = true;
    let server = server(Scripted::succeeding(&log), vec![gate, Stage::plain("m2", &log)]);
    let mut redis = Redis::default();
    let result = redis.dispatch(server.pack_job(job("echo", "abc")), "2016-10-25");
    assert_eq!(result.unwrap_err().error, ErrorKind::Handler("rejected".to_string()));
    assert_eq!(*log.borrow(), vec!["m1.before", "m2.before", "m1.after", "m2.after"]);
    assert_eq!(redis.hash_writes, 0);
    assert_eq!(redis.count("stat:failed"), 1);
    assert_eq!(redis.count("stat:processed"), 0);
}

#[test]
fn unknown_class_still_passes_through_the_hooks() {
    let log: Log = Rc::new(RefCell::new(Vec::new()));
    let server = server(Scripted::succeeding(&log), vec![Stage::plain("m1", &log)]);
    let mut redis = Redis::default();
    let result = redis.dispatch(server.pack_job(job("missing", "x")), "2016-10-25");
    assert!(result.is_err());
    assert_eq!(*log.borrow(), vec!["m1.before", "m1.after"]);
    assert_eq!(redis.count("stat:failed"), 1);
}

#[test]
fn retry_stage_turns_a_failure_into_a_success() {
    let log: Log = Rc::new(RefCell::new(Vec::new()));
    let mut retry = Stage::plain("retry", &log);
    retry.rescue_after = true;
    let server = server(Scripted::failing(&log, 1), vec![retry]);
    let mut redis = Redis::default();

    let first = redis.dispatch(server.pack_job(job("echo", "abc")), "2016-10-25");
    let requeued = first.unwrap().into_job();
    assert_eq!(requeued.retry_info.as_ref().unwrap().retry_count, 0);
    assert_eq!(requeued.retry_info.as_ref().unwrap().error_message, "handler: boom");
    assert_eq!(redis.count("stat:failed"), 0);
    assert_eq!(redis.count("stat:processed"), 1);

    let second = redis.dispatch(server.pack_job(requeued), "2016-10-25");
    assert!(second.is_ok());
    assert_eq!(redis.count("stat:failed"), 0);
    assert_eq!(redis.count("stat:failed:2016-10-25"), 0);
    assert_eq!(redis.count("stat:processed"), 2);
    assert_eq!(
        *log.borrow(),
        vec!["retry.before", "perform abc", "retry.after", "retry.before", "perform abc", "retry.after"]
    );
}

#[test]
fn every_dispatch_counts_exactly_one_outcome_once() {
    let log: Log = Rc::new(RefCell::new(Vec::new()));
    let server = server(Scripted::failing(&log, 2), Vec::new());
    let mut redis = Redis::default();
    for (n, class) in ["echo", "missing", "echo", "echo", "missing"].iter().enumerate() {
        let _ = redis.dispatch(server.pack_job(job(class, "j")), "2016-10-25");
        let total = redis.count("stat:processed") + redis.count("stat:failed");
        let daily = redis.count("stat:processed:2016-10-25") + redis.count("stat:failed:2016-10-25");
        assert_eq!(total, n as u64 + 1);
        assert_eq!(daily, n as u64 + 1);
    }
    assert_eq!(redis.count("stat:failed"), 4);
    assert_eq!(redis.count("stat:processed"), 1);
}

#[test]
fn ignored_jobs_count_as_processed() {
    let log: Log = Rc::new(RefCell::new(Vec::new()));
    let mut handler = Scripted::succeeding(&log);
    handler.answer = JobSuccessType::Ignore;
    let server = server(handler, Vec::new());
    let mut redis = Redis::default();
    assert!(redis.dispatch(server.pack_job(job("echo", "abc")), "2016-10-25").is_ok());
    assert_eq!(redis.count("stat:processed"), 1);
    assert_eq!(redis.count("stat:failed"), 0);
}

#[test]
fn pack_job_keeps_the_job_and_finds_the_handler() {
    let log: Log = Rc::new(RefCell::new(Vec::new()));
    let mut server = server(Scripted::succeeding(&log), vec![Stage::plain("m1", &log)]);
    server.namespace = "app".to_string();
    let packed = server.pack_job(job("echo", "abc"));
    assert!(packed.handler.is_some());
    assert_eq!(packed.stages.len(), 1);
    assert_eq!(packed.class, "echo");
    assert_eq!(packed.namespace, "app");
    assert_eq!(packed.workers_key, "app:abcdefghijkl:workers");
    assert_eq!(packed.agent.job().jid, "abc");
    assert_eq!(packed.agent.job().args, vec![serde_json::Value::from(1), serde_json::Value::from(2)]);
    let packed = server.pack_job(job("missing", "x"));
    assert!(packed.handler.is_none());
    assert_eq!(packed.class, "missing");
}

#[test]
fn worker_mark_needs_a_handler_and_an_unfailed_job() {
    let ok: MiddleWareResult = Ok(JobAgent::new(job("echo", "abc")));
    let failed: MiddleWareResult =
        Err(Failure { agent: JobAgent::new(job("echo", "abc")), error: ErrorKind::Handler("x".to_string()) });
    let now = Timestamp { secs: 33, nanos: 999_999_999 };
    let mark = worker_mark(true, &ok, "id:workers", "w", now).unwrap();
    assert_eq!((mark.key.as_str(), mark.field.as_str(), mark.queue.as_str()), ("id:workers", "w", "default"));
    assert_eq!((mark.run_at, mark.ttl), (33, 5));
    assert!(worker_mark(false, &ok, "id:workers", "w", now).is_none());
    assert!(worker_mark(true, &failed, "id:workers", "w", now).is_none());
    assert!(worker_mark(false, &failed, "id:workers", "w", now).is_none());
}

#[test]
fn after_handler_follows_the_answer() {
    let (flow, clear) = after_handler(JobAgent::new(job("echo", "a")), Ok(JobSuccessType::Success), "k", "w");
    assert_eq!(flow.unwrap().job().jid, "a");
    let clear = clear.unwrap();
    assert_eq!((clear.key.as_str(), clear.field.as_str()), ("k", "w"));
    let (flow, clear) =
        after_handler(JobAgent::new(job("echo", "b")), Err(ErrorKind::Handler("no".to_string())), "k", "w");
    let failure = flow.unwrap_err();
    assert_eq!(failure.agent.job().jid, "b");
    assert_eq!(failure.error, ErrorKind::Handler("no".to_string()));
    assert!(clear.is_none());
}

#[test]
fn stat_update_names_the_pair_of_one_outcome() {
    let update = stat_update("app", false, "2024-02-29");
    assert!(!update.failed);
    assert_eq!(update.daily_key, "app:stat:processed:2024-02-29");
    assert_eq!(update.total_key, "app:stat:processed");
    assert_eq!(update.amount, 1);
    let update = stat_update("", true, "2024-02-29");
    assert!(update.failed);
    assert_eq!(update.daily_key, "stat:failed:2024-02-29");
    assert_eq!(update.total_key, "stat:failed");
    assert_eq!(update.amount, 1);
}

#[test]
fn chains_without_stages_hand_back_what_they_got() {
    let stages: Vec<Stage> = Vec::new();
    let out = run_before(&stages, Ok(JobAgent::new(job("echo", "abc"))));
    assert_eq!(out.unwrap().job().jid, "abc");
    let failed: MiddleWareResult =
        Err(Failure { agent: JobAgent::new(job("echo", "abc")), error: ErrorKind::Handler("x".to_string()) });
    let out = run_after(&stages, failed);
    assert_eq!(out.unwrap_err().error, ErrorKind::Handler("x".to_string()));
}

#[test]
fn enter_now_stamps_the_current_second() {
    let log: Log = Rc::new(RefCell::new(Vec::new()));
    let server = server(Scripted::succeeding(&log), Vec::new());
    let before = chrono::Utc::now().timestamp();
    let (_, mark) = server.pack_job(job("echo", "abc")).enter_now("w0rk3r1d9");
    let after = chrono::Utc::now().timestamp();
    let mark = mark.unwrap();
    assert!(before <= mark.run_at && mark.run_at <= after);
    assert_eq!(mark.field, "w0rk3r1d9");
    assert_eq!(mark.ttl, 5);
}

#[test]
fn leave_now_counts_on_the_current_utc_day() {
    let log: Log = Rc::new(RefCell::new(Vec::new()));
    let server = server(Scripted::succeeding(&log), Vec::new());
    let (entered, _) = server.pack_job(job("echo", "abc")).enter("w", Timestamp { secs: 1, nanos: 0 });
    let (performed, _) = entered.perform();
    let before = chrono::Utc::now().format("%Y-%m-%d").to_string();
    let (_, update) = performed.leave_now();
    let after = chrono::Utc::now().format("%Y-%m-%d").to_string();
    assert_eq!(update.total_key, "stat:processed");
    assert!(
        update.daily_key == format!("stat:processed:{}", before)
            || update.daily_key == format!("stat:processed:{}", after)
    );
}
