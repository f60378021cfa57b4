//! The Redis keyspace: every key the server touches is composed here.

use vstd::prelude::*;
use crate::text::{decimal, decimal_text};

verus! {

/// `s` under the namespace `ns`: `s` itself when the namespace is empty,
/// otherwise the namespace, a colon and `s`.
pub open spec fn namespaced(ns: Seq<char>, s: Seq<char>) -> Seq<char> {
    if ns.len() == 0 {
        s
    } else {
        ns + ":"@ + s
    }
}

/// `s` under a server id: the id, a colon and `s`.
pub open spec fn scoped(server_id: Seq<char>, s: Seq<char>) -> Seq<char> {
    server_id + ":"@ + s
}

/// The list that producers push jobs of queue `name` to.
pub open spec fn queue_key(ns: Seq<char>, name: Seq<char>) -> Seq<char> {
    namespaced(ns, "queue:"@ + name)
}

/// The hash in which the workers of one server record what they run.
pub open spec fn workers_hash(ns: Seq<char>, server_id: Seq<char>) -> Seq<char> {
    namespaced(ns, scoped(server_id, "workers"@))
}

/// The name a server process goes by: host, process id and server id.
pub open spec fn identity_text(hostname: Seq<char>, pid: nat, server_id: Seq<char>) -> Seq<char> {
    hostname + ":"@ + decimal(pid) + ":"@ + server_id
}

/// The set of live server identities.
pub open spec fn processes_set(ns: Seq<char>) -> Seq<char> {
    namespaced(ns, "processes"@)
}

/// The running total of one outcome: of failures if `failed`, of successes otherwise.
pub open spec fn stat_total(ns: Seq<char>, failed: bool) -> Seq<char> {
    if failed {
        namespaced(ns, "stat:failed"@)
    } else {
        namespaced(ns, "stat:processed"@)
    }
}

/// The total of one outcome for the day written as `date`.
pub open spec fn stat_daily(ns: Seq<char>, failed: bool, date: Seq<char>) -> Seq<char> {
    if failed {
        namespaced(ns, "stat:failed:"@ + date)
    } else {
        namespaced(ns, "stat:processed:"@ + date)
    }
}

/// Puts `snippet` under the namespace.
pub fn with_namespace(ns: &str, snippet: &str) -> (key: String)
    ensures
        key@ == namespaced(ns@, snippet@),
{
    if ns.is_empty() {
        String::from_str(snippet)
    } else {
        let mut key = String::from_str(ns);
        key.append(":");
        key.append(snippet);
        key
    }
}

/// Puts `snippet` under a server id.
pub fn with_server_id(server_id: &str, snippet: &str) -> (key: String)
    ensures
        key@ == scoped(server_id@, snippet@),
{
    let mut key = String::from_str(server_id);
    key.append(":");
    key.append(snippet);
    key
}

/// The key of the list behind queue `name`.
pub fn queue_name(ns: &str, name: &str) -> (key: String)
    ensures
        key@ == queue_key(ns@, name@),
{
    let mut plain = String::from_str("queue:");
    plain.append(name);
    with_namespace(ns, plain.as_str())
}

/// The key of a server's workers hash.
pub fn workers_key(ns: &str, server_id: &str) -> (key: String)
    ensures
        key@ == workers_hash(ns@, server_id@),
{
    let plain = with_server_id(server_id, "workers");
    with_namespace(ns, plain.as_str())
}

/// The identity of the process `pid` on `hostname` that runs server `server_id`.
pub fn identity(hostname: &str, pid: usize, server_id: &str) -> (id: String)
    ensures
        id@ == identity_text(hostname@, pid as nat, server_id@),
{
    let mut id = String::from_str(hostname);
    id.append(":");
    let number = decimal_text(pid as u64);
    id.append(number.as_str());
    id.append(":");
    id.append(server_id);
    id
}

/// The key of the set of live servers.
pub fn processes_key(ns: &str) -> (key: String)
    ensures
        key@ == processes_set(ns@),
{
    with_namespace(ns, "processes")
}

/// The key of the running total of one outcome.
pub fn stat_key(ns: &str, failed: bool) -> (key: String)
    ensures
        key@ == stat_total(ns@, failed),
{
    if failed {
        with_namespace(ns, "stat:failed")
    } else {
        with_namespace(ns, "stat:processed")
    }
}

/// The key of one day's total of one outcome.
pub fn stat_key_on(ns: &str, failed: bool, date: &str) -> (key: String)
    ensures
        key@ == stat_daily(ns@, failed, date@),
{
    let mut plain = if failed {
        String::from_str("stat:failed:")
    } else {
        String::from_str("stat:processed:")
    };
    plain.append(date);
    with_namespace(ns, plain.as_str())
}

/// A non-empty namespace always prepends itself and a colon, so the result
/// is longer than what went in.
pub proof fn lemma_namespace_prepends(ns: Seq<char>, s: Seq<char>)
    requires
        ns.len() > 0,
    ensures
        namespaced(ns, s).len() == ns.len() + 1 + s.len(),
        namespaced(ns, s).subrange(0, ns.len() as int) == ns,
        namespaced(ns, s)[ns.len() as int] == ':',
        namespaced(ns, s).subrange(ns.len() as int + 1, namespaced(ns, s).len() as int) == s,
{
    reveal_strlit(":");
    let r = namespaced(ns, s);
    assert(r.subrange(0, ns.len() as int) =~= ns);
    assert(r.subrange(ns.len() as int + 1, r.len() as int) =~= s);
}

/// Applying the namespace twice gives the same as applying it once exactly
/// when the namespace is empty.
pub proof fn lemma_namespace_idempotent_iff_empty(ns: Seq<char>, s: Seq<char>)
    ensures
        namespaced(ns, namespaced(ns, s)) == namespaced(ns, s) <==> ns.len() == 0,
{
    if ns.len() > 0 {
        lemma_namespace_prepends(ns, s);
        lemma_namespace_prepends(ns, namespaced(ns, s));
    }
}

/// Under one namespace, different snippets give different keys.
pub proof fn lemma_namespace_injective(ns: Seq<char>, a: Seq<char>, b: Seq<char>)
    requires
        namespaced(ns, a) == namespaced(ns, b),
    ensures
        a == b,
{
    if ns.len() > 0 {
        lemma_namespace_prepends(ns, a);
        lemma_namespace_prepends(ns, b);
    }
}

/// The counters of successes and of failures never share a key: neither the
/// totals nor the daily ones, whatever the dates.
pub proof fn lemma_stat_keys_distinct(ns: Seq<char>, d1: Seq<char>, d2: Seq<char>)
    ensures
        stat_total(ns, false) != stat_total(ns, true),
        stat_daily(ns, false, d1) != stat_daily(ns, true, d2),
        stat_total(ns, false) != stat_daily(ns, true, d2),
        stat_total(ns, true) != stat_daily(ns, false, d1),
{
    reveal_strlit("stat:processed");
    reveal_strlit("stat:failed");
    reveal_strlit("stat:processed:");
    reveal_strlit("stat:failed:");
    let p = "stat:processed"@;
    let f = "stat:failed"@;
    let pd = "stat:processed:"@ + d1;
    let fd = "stat:failed:"@ + d2;
    assert(p[5] == 'p' && f[5] == 'f' && pd[5] == 'p' && fd[5] == 'f');
    if stat_total(ns, false) == stat_total(ns, true) {
        lemma_namespace_injective(ns, p, f);
    }
    if stat_daily(ns, false, d1) == stat_daily(ns, true, d2) {
        lemma_namespace_injective(ns, pd, fd);
    }
    if stat_total(ns, false) == stat_daily(ns, true, d2) {
        lemma_namespace_injective(ns, p, fd);
    }
    if stat_total(ns, true) == stat_daily(ns, false, d1) {
        lemma_namespace_injective(ns, f, pd);
    }
}

} // verus!
