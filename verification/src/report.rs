//! The heartbeat: what a server writes to Redis to show that it is alive.

use vstd::prelude::*;
use crate::clock::{seconds_text, Timestamp};
use crate::keys::{identity_text, namespaced, processes_set};
use crate::text::decimal;

verus! {

/// The seconds after which a heartbeat record expires.
pub const HEARTBEAT_TTL: u64 = 5;

/// The seconds between two heartbeats of a running server.
pub const HEARTBEAT_EVERY: u64 = 2;

/// What a server says of itself in the `info` field of its heartbeat.
#[derive(Debug, Clone)]
pub struct ProcessInfo {
    pub hostname: String,
    pub started_at: Timestamp,
    pub pid: usize,
    pub concurrency: usize,
    pub queues: Vec<String>,
    pub labels: Vec<String>,
    pub identity: String,
}

/// One heartbeat. The hash `key` gets the fields `info`, `busy` and `beat`
/// and expires after `ttl` seconds, and `member` joins the set
/// `processes_key`; all of it on one connection, in one pipelined call.
#[derive(Debug, Clone)]
pub struct Heartbeat {
    pub key: String,
    pub info: ProcessInfo,
    pub busy: String,
    pub beat: String,
    pub ttl: u64,
    pub processes_key: String,
    pub member: String,
}

/// What of a server goes into a heartbeat.
pub struct Vitals {
    pub namespace: Seq<char>,
    pub hostname: Seq<char>,
    pub pid: usize,
    pub server_id: Seq<char>,
    pub started_at: Timestamp,
    pub concurrency: usize,
    pub queues: Seq<Seq<char>>,
    pub busy: nat,
}

impl Vitals {
    /// The identity of the server.
    pub open spec fn identity(self) -> Seq<char> {
        identity_text(self.hostname, self.pid as nat, self.server_id)
    }
}

/// The texts of a list of strings, in order.
pub open spec fn texts_of(strings: Seq<String>) -> Seq<Seq<char>> {
    Seq::new(strings.len(), |i: int| strings[i]@)
}

/// `info` describes the server with these vitals.
pub open spec fn describes(info: ProcessInfo, vitals: Vitals) -> bool {
    &&& info.hostname@ == vitals.hostname
    &&& info.started_at == vitals.started_at
    &&& info.pid == vitals.pid
    &&& info.concurrency == vitals.concurrency
    &&& texts_of(info.queues@) == vitals.queues
    &&& info.labels@.len() == 0
    &&& info.identity@ == vitals.identity()
}

/// `heartbeat` is the heartbeat of the server with these vitals at `now`:
/// the record lives under the server's identity, in the namespace, for five
/// seconds; the identity itself is the member of the set of processes;
/// `busy` is the number of busy workers and `beat` the time in seconds.
pub open spec fn beats(heartbeat: Heartbeat, vitals: Vitals, now: Timestamp) -> bool {
    &&& heartbeat.key@ == namespaced(vitals.namespace, vitals.identity())
    &&& describes(heartbeat.info, vitals)
    &&& heartbeat.busy@ == decimal(vitals.busy)
    &&& heartbeat.beat@ == seconds_text(now)
    &&& heartbeat.ttl == HEARTBEAT_TTL
    &&& heartbeat.processes_key@ == processes_set(vitals.namespace)
    &&& heartbeat.member@ == vitals.identity()
}

/// What a heartbeat says of the process, as plain values.
pub struct ProcessInfoView {
    pub hostname: Seq<char>,
    pub started_at: Timestamp,
    pub pid: usize,
    pub concurrency: usize,
    pub queues: Seq<Seq<char>>,
    pub labels: Seq<Seq<char>>,
    pub identity: Seq<char>,
}

/// A heartbeat, as plain values.
pub struct HeartbeatView {
    pub key: Seq<char>,
    pub info: ProcessInfoView,
    pub busy: Seq<char>,
    pub beat: Seq<char>,
    pub ttl: u64,
    pub processes_key: Seq<char>,
    pub member: Seq<char>,
}

impl View for ProcessInfo {
    type V = ProcessInfoView;

    open spec fn view(&self) -> ProcessInfoView {
        ProcessInfoView {
            hostname: self.hostname@,
            started_at: self.started_at,
            pid: self.pid,
            concurrency: self.concurrency,
            queues: texts_of(self.queues@),
            labels: texts_of(self.labels@),
            identity: self.identity@,
        }
    }
}

impl View for Heartbeat {
    type V = HeartbeatView;

    open spec fn view(&self) -> HeartbeatView {
        HeartbeatView {
            key: self.key@,
            info: self.info@,
            busy: self.busy@,
            beat: self.beat@,
            ttl: self.ttl,
            processes_key: self.processes_key@,
            member: self.member@,
        }
    }
}

/// The value of a field in a process hash.
pub enum FieldValue {
    /// The description of the process.
    Info(ProcessInfoView),
    /// A text.
    Text(Seq<char>),
}

/// The part of Redis that heartbeats write to: the hashes by key and field,
/// the seconds after which a key expires, and the sets by key.
pub struct Store {
    pub hashes: Map<Seq<char>, Map<Seq<char>, FieldValue>>,
    pub expiry: Map<Seq<char>, u64>,
    pub sets: Map<Seq<char>, Set<Seq<char>>>,
}

/// The fields of the hash `key`; none where there is no such hash.
pub open spec fn hash_at(store: Store, key: Seq<char>) -> Map<Seq<char>, FieldValue> {
    if store.hashes.contains_key(key) {
        store.hashes[key]
    } else {
        Map::empty()
    }
}

/// The members of the set `key`; none where there is no such set.
pub open spec fn set_at(store: Store, key: Seq<char>) -> Set<Seq<char>> {
    if store.sets.contains_key(key) {
        store.sets[key]
    } else {
        Set::empty()
    }
}

/// The store after a heartbeat has been written to it: the three fields are
/// set in the hash, the hash is given its time to live, and the member is
/// added to the set of processes.
pub open spec fn written(store: Store, heartbeat: HeartbeatView) -> Store {
    Store {
        hashes: store.hashes.insert(
            heartbeat.key,
            hash_at(store, heartbeat.key).insert("info"@, FieldValue::Info(heartbeat.info)).insert(
                "busy"@,
                FieldValue::Text(heartbeat.busy),
            ).insert("beat"@, FieldValue::Text(heartbeat.beat)),
        ),
        expiry: store.expiry.insert(heartbeat.key, heartbeat.ttl),
        sets: store.sets.insert(
            heartbeat.processes_key,
            set_at(store, heartbeat.processes_key).insert(heartbeat.member),
        ),
    }
}

/// The store without the field `beat` of the hash `key`.
pub open spec fn without_beat(store: Store, key: Seq<char>) -> Store {
    Store {
        hashes: store.hashes.insert(key, hash_at(store, key).remove("beat"@)),
        expiry: store.expiry,
        sets: store.sets,
    }
}

/// The identity of a server is made of its host name, process id and server
/// id, and of nothing else. It is the member that a heartbeat adds to the
/// set of processes and, under the namespace, the key of the heartbeat's hash.
pub proof fn lemma_heartbeat_carries_identity(heartbeat: Heartbeat, vitals: Vitals, now: Timestamp)
    requires
        beats(heartbeat, vitals, now),
    ensures
        heartbeat.member@ == identity_text(vitals.hostname, vitals.pid as nat, vitals.server_id),
        heartbeat.info.identity@ == heartbeat.member@,
        heartbeat.key@ == namespaced(vitals.namespace, heartbeat.member@),
        vitals.namespace.len() == 0 ==> heartbeat.key@ == heartbeat.member@,
{
}

/// Two heartbeats of one server differ in nothing but the field `beat`.
pub proof fn lemma_heartbeats_differ_in_beat(
    first: Heartbeat,
    second: Heartbeat,
    vitals: Vitals,
    earlier: Timestamp,
    later: Timestamp,
)
    requires
        beats(first, vitals, earlier),
        beats(second, vitals, later),
    ensures
        first@ == (HeartbeatView { beat: first@.beat, ..second@ }),
{
    assert(first.info@.labels =~= second.info@.labels);
}

/// Reporting alive twice leaves Redis as reporting once does. After two
/// heartbeats of one server the store is as after the second alone; and but
/// for the field `beat`, it is as after the first alone.
pub proof fn lemma_report_alive_is_idempotent(
    store: Store,
    first: Heartbeat,
    second: Heartbeat,
    vitals: Vitals,
    earlier: Timestamp,
    later: Timestamp,
)
    requires
        beats(first, vitals, earlier),
        beats(second, vitals, later),
    ensures
        written(written(store, first@), second@) == written(store, second@),
        without_beat(written(written(store, first@), second@), second@.key) == without_beat(
            written(store, first@),
            first@.key,
        ),
{
    lemma_heartbeats_differ_in_beat(first, second, vitals, earlier, later);
    reveal_strlit("info");
    reveal_strlit("busy");
    reveal_strlit("beat");
    let one = written(store, first@);
    let two = written(one, second@);
    let only = written(store, second@);
    assert("info"@ != "busy"@) by {
        assert("info"@[0] != "busy"@[0]);
    }
    assert("info"@ != "beat"@) by {
        assert("info"@[0] != "beat"@[0]);
    }
    assert("busy"@ != "beat"@) by {
        assert("busy"@[1] != "beat"@[1]);
    }
    assert(hash_at(two, second@.key) =~= hash_at(only, second@.key));
    assert(two.hashes =~= only.hashes);
    assert(two.expiry =~= only.expiry);
    assert(set_at(two, second@.processes_key) =~= set_at(only, second@.processes_key));
    assert(two.sets =~= only.sets);
    assert(hash_at(two, second@.key).remove("beat"@) =~= hash_at(one, first@.key).remove("beat"@));
    assert(without_beat(two, second@.key).hashes =~= without_beat(one, first@.key).hashes);
    assert(without_beat(two, second@.key).expiry =~= without_beat(one, first@.key).expiry);
    assert(without_beat(two, second@.key).sets =~= without_beat(one, first@.key).sets);
}

} // verus!
