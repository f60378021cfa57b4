//! Random identifiers for servers and workers.

use vstd::prelude::*;
use rand::distributions::{Alphanumeric, DistString};

verus! {

/// The characters an identifier is drawn from: the ASCII letters and digits.
pub open spec fn alphabet() -> Seq<char> {
    "ABCDEFGHIJKLMNOPQRSTUVWXYZabcdefghijklmnopqrstuvwxyz0123456789"@
}

/// `s` has `len` characters, each of them an ASCII letter or digit.
pub open spec fn is_identifier(s: Seq<char>, len: nat) -> bool {
    &&& s.len() == len
    &&& forall|i: int| 0 <= i < s.len() ==> alphabet().contains(#[trigger] s[i])
}

/// `Alphanumeric.sample_string` of rand, on the thread's generator: a string
/// of `len` characters, each drawn from the ASCII letters and digits. Which
/// ones is left to chance.
#[verifier::external_body]
fn random_alphanumeric(len: usize) -> (s: String)
    ensures
        is_identifier(s@, len as nat),
{
    Alphanumeric.sample_string(&mut rand::thread_rng(), len)
}

/// A fresh server id: twelve random letters and digits.
pub fn new_server_id() -> (id: String)
    ensures
        is_identifier(id@, 12),
{
    random_alphanumeric(12)
}

/// A fresh worker id: nine random letters and digits.
pub fn new_worker_id() -> (id: String)
    ensures
        is_identifier(id@, 9),
{
    random_alphanumeric(9)
}

} // verus!
