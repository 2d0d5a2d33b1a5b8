use vstd::prelude::*;
use crate::time::{chrono_accepts, Timestamp};

verus! {

/// The text chrono's `format("%d-%m-%Y-%H-%M")` gives for a point in time
/// in UTC: day, month, year, hour and minute.
pub uninterp spec fn utc_minute_text(secs: i64, nanos: u32) -> Seq<char>;

/// `chrono::DateTime::from_timestamp(secs, nanos)`, then, when chrono can
/// represent the time, its `format("%d-%m-%Y-%H-%M")` as a string. The text
/// depends on the arguments alone, since the time is shown in UTC.
#[verifier::external_body]
fn utc_minute(secs: i64, nanos: u32) -> (text: Option<String>)
    ensures
        text is Some == chrono_accepts(secs, nanos),
        text matches Some(s) ==> s@ == utc_minute_text(secs, nanos),
{
    match chrono::DateTime::from_timestamp(secs, nanos) {
        Some(t) => Some(t.format("%d-%m-%Y-%H-%M").to_string()),
        None => None,
    }
}

/// Where the log of a program run started at `at` is written: in the `logs`
/// directory, named after the program and the minute it started, in UTC.
pub open spec fn log_file(name: Seq<char>, secs: i64, nanos: u32) -> Seq<char> {
    "logs/"@ + name + "-"@ + utc_minute_text(secs, nanos) + ".txt"@
}

/// The path of the log file of the program `name` started at `at`, or
/// `None` if chrono cannot represent `at`.
pub fn log_file_path(name: &str, at: Timestamp) -> (path: Option<String>)
    ensures
        path is Some == chrono_accepts(at.secs, at.nanos),
        path matches Some(p) ==> p@ == log_file(name@, at.secs, at.nanos),
{
    match utc_minute(at.secs, at.nanos) {
        Some(minute) => {
            let path = String::from_str("logs/").concat(name).concat("-").concat(minute.as_str()).concat(
                ".txt",
            );
            Some(path)
        },
        None => None,
    }
}

} // verus!
