//! Points in time, and the two readings of the clock that the server takes.

use vstd::prelude::*;
use crate::text::{decimal, decimal_text, zero_padded, zero_padded_text};

verus! {

/// A point in time on the UTC scale: whole seconds since 1970-01-01 00:00:00
/// and the nanoseconds that follow them (a billion or more inside a leap second).
#[derive(Debug, Clone, Copy, PartialEq, Eq, Structural)]
pub struct Timestamp {
    pub secs: i64,
    pub nanos: u32,
}

/// The microseconds from 1970 to `t`; what is finer than a microsecond is cut off.
pub open spec fn micros_of(t: Timestamp) -> int {
    t.secs * 1_000_000 + t.nanos / 1000
}

/// `t` in seconds as a decimal fraction with six places: a minus sign before
/// 1970, the whole seconds, a point, and the microseconds.
pub open spec fn seconds_text(t: Timestamp) -> Seq<char> {
    let m = micros_of(t);
    let a = if m < 0 {
        -m
    } else {
        m
    };
    let sign = if m < 0 {
        "-"@
    } else {
        Seq::<char>::empty()
    };
    sign + decimal((a / 1_000_000) as nat) + "."@ + zero_padded((a % 1_000_000) as nat, 6)
}

/// `chrono::Utc::now`, taken apart into its `timestamp` and
/// `timestamp_subsec_nanos`. Nothing is claimed of the reading: it is
/// whatever the system clock says. (chrono gives up on a clock that is set
/// to before 1970.)
#[verifier::external_body]
pub(crate) fn utc_now() -> Timestamp {
    let t = chrono::Utc::now();
    Timestamp { secs: t.timestamp(), nanos: t.timestamp_subsec_nanos() }
}

/// `chrono::Utc::now`, formatted with `%Y-%m-%d`: the current UTC date.
/// Nothing is claimed of the text.
#[verifier::external_body]
pub(crate) fn utc_today() -> String {
    chrono::Utc::now().format("%Y-%m-%d").to_string()
}

impl Timestamp {
    /// Writes the time in seconds, with six decimal places.
    pub fn seconds(&self) -> (text: String)
        ensures
            text@ == seconds_text(*self),
    {
        let fine: i128 = (self.nanos / 1000) as i128;
        let micros: i128 = (self.secs as i128) * 1_000_000 + fine;
        let negative = micros < 0;
        let magnitude: i128 = if negative {
            -micros
        } else {
            micros
        };
        let whole: i128 = magnitude / 1_000_000;
        let part: i128 = magnitude % 1_000_000;
        let mut text = if negative {
            String::from_str("-")
        } else {
            String::new()
        };
        let digits = decimal_text(whole as u64);
        text.append(digits.as_str());
        text.append(".");
        let places = zero_padded_text(part as u64, 6);
        text.append(places.as_str());
        text
    }
}

} // verus!
