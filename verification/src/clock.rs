//! Wall-clock readings as plain calendar fields, and their rendering as
//! the bracketed timestamp that opens every log line.

use vstd::prelude::*;
use vstd::string::*;
use chrono::{Datelike, Timelike};
use crate::text::{dec_chars, dec2_chars, dec_u32, dec2_u32};

verus! {

/// One clock reading, split into UTC calendar fields.
#[derive(Clone, Copy, PartialEq, Eq, Structural, Debug)]
pub struct Timestamp {
    pub year: i32,
    pub month: u32,
    pub day: u32,
    pub hour: u32,
    pub minute: u32,
    pub second: u32,
}

impl Timestamp {
    /// The fields form a plausible calendar reading.
    pub open spec fn wf(self) -> bool {
        &&& 1 <= self.month <= 12
        &&& 1 <= self.day <= 31
        &&& self.hour <= 23
        &&& self.minute <= 59
        &&& self.second <= 59
    }
}

/// A possibly negative number in decimal.
pub open spec fn signed_dec_chars(n: int) -> Seq<char> {
    if n < 0 {
        seq!['-'] + dec_chars((-n) as nat)
    } else {
        dec_chars(n as nat)
    }
}

/// The text of a timestamp: `[year-month-day hour:minute:second]`. With
/// `padded` every field but the year is zero-padded to two digits; without
/// it each field keeps its natural width.
pub open spec fn ts_chars(ts: Timestamp, padded: bool) -> Seq<char> {
    seq!['['] + signed_dec_chars(ts.year as int) + seq!['-'] + field_chars(ts.month, padded)
        + seq!['-'] + field_chars(ts.day, padded) + seq![' '] + field_chars(ts.hour, padded)
        + seq![':'] + field_chars(ts.minute, padded) + seq![':'] + field_chars(ts.second, padded)
        + seq![']']
}

/// One timestamp field, zero-padded to two digits when asked.
pub open spec fn field_chars(n: u32, padded: bool) -> Seq<char> {
    if padded {
        dec2_chars(n as nat)
    } else {
        dec_chars(n as nat)
    }
}

fn dec_i32(n: i32) -> (r: String)
    ensures
        r@ == signed_dec_chars(n as int),
{
    if n < 0 {
        proof {
            reveal_strlit("-");
        }
        let mut s = String::from_str("-");
        let m: i64 = -(n as i64);
        let d = dec_u32(m as u32);
        s.append(d.as_str());
        s
    } else {
        dec_u32(n as u32)
    }
}

fn field_u32(n: u32, padded: bool) -> (r: String)
    ensures
        r@ == field_chars(n, padded),
{
    if padded {
        dec2_u32(n)
    } else {
        dec_u32(n)
    }
}

/// Renders a timestamp as `[year-month-day hour:minute:second]`.
pub fn format_timestamp(ts: &Timestamp, padded: bool) -> (r: String)
    ensures
        r@ == ts_chars(*ts, padded),
{
    proof {
        reveal_strlit("[");
        reveal_strlit("-");
        reveal_strlit(" ");
        reveal_strlit(":");
        reveal_strlit("]");
    }
    let mut s = String::from_str("[");
    let y = dec_i32(ts.year);
    s.append(y.as_str());
    s.append("-");
    let mo = field_u32(ts.month, padded);
    s.append(mo.as_str());
    s.append("-");
    let d = field_u32(ts.day, padded);
    s.append(d.as_str());
    s.append(" ");
    let h = field_u32(ts.hour, padded);
    s.append(h.as_str());
    s.append(":");
    let mi = field_u32(ts.minute, padded);
    s.append(mi.as_str());
    s.append(":");
    let se = field_u32(ts.second, padded);
    s.append(se.as_str());
    s.append("]");
    s
}

/// Relies on chrono's `Local::now` and `DateTime::to_utc`, and on the
/// `Datelike`/`Timelike` field accessors, whose documented ranges are the
/// well-formedness bounds: month 1..=12, day 1..=31, hour 0..=23, minute
/// and second 0..=59.
#[verifier::external_body]
pub(crate) fn now_utc() -> (r: Timestamp)
    ensures
        r.wf(),
{
    let now = chrono::Local::now().to_utc();
    Timestamp {
        year: now.year(),
        month: now.month(),
        day: now.day(),
        hour: now.hour(),
        minute: now.minute(),
        second: now.second(),
    }
}

} // verus!
