//! Date-time conversion.
use crate::aws::sso_token::Timestamp;
use chrono::NaiveDateTime;
use vstd::prelude::*;

verus! {

/// What `NaiveDateTime::parse_from_str(text, "%Y-%m-%d %H:%M:%S")` yields, read
/// as a UTC instant: its seconds since the epoch and nanoseconds; `None` where
/// the text does not match the format.
pub uninterp spec fn parse_utc_datetime(text: Seq<char>) -> Option<(i64, u32)>;

/// Parses `text` in the format `%Y-%m-%d %H:%M:%S` and reads it as UTC.
#[verifier::external_body]
fn naive_datetime_parse(text: &str) -> (r: Option<Timestamp>)
    ensures
        match r {
            Some(t) => parse_utc_datetime(text@) == Some((t.secs, t.nanos)),
            None => parse_utc_datetime(text@) is None,
        },
{
    match NaiveDateTime::parse_from_str(text, "%Y-%m-%d %H:%M:%S") {
        Ok(n) => {
            let d = n.and_utc();
            Some(Timestamp { secs: d.timestamp(), nanos: d.timestamp_subsec_nanos() })
        },
        Err(_) => None,
    }
}

/// The UTC instant written `YYYY-MM-DD HH:MM:SS` in `date`, which must match
/// that format.
pub fn convert_naive_datetime_to_utc(date: &str) -> (t: Timestamp)
    requires
        parse_utc_datetime(date@) is Some,
    ensures
        parse_utc_datetime(date@) == Some((t.secs, t.nanos)),
{
    naive_datetime_parse(date).unwrap()
}

/// The UTC instant written in `date`, or `None` where it does not match the
/// format.
pub fn try_convert_naive_datetime_to_utc(date: &str) -> (t: Option<Timestamp>)
    ensures
        match t {
            Some(t) => parse_utc_datetime(date@) == Some((t.secs, t.nanos)),
            None => parse_utc_datetime(date@) is None,
        },
{
    match naive_datetime_parse(date) {
        Some(_) => Some(convert_naive_datetime_to_utc(date)),
        None => None,
    }
}

} // verus!
