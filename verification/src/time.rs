use vstd::prelude::*;

verus! {

/// A point in time as seconds since the Unix epoch plus the nanoseconds
/// since the last whole second (above 999,999,999 only within a leap second).
#[derive(Clone, Copy, Debug, PartialEq, Eq, Structural)]
pub struct Timestamp {
    pub secs: i64,
    pub nanos: u32,
}

/// Whether a timestamp can be a reading of the system clock: not before the
/// Unix epoch, and with less than a second of nanoseconds.
pub open spec fn is_clock_reading(t: Timestamp) -> bool {
    t.secs >= 0 && t.nanos < 1_000_000_000
}

/// Whether `chrono::DateTime::from_timestamp` accepts these seconds and
/// nanoseconds, that is, whether chrono can represent the point in time:
/// the day must lie between 1 January of the year -262143 and 31 December
/// of the year 262142, and the nanoseconds must be below one second, or
/// below two seconds in a second ending in 59 (a leap second).
pub open spec fn chrono_accepts(secs: i64, nanos: u32) -> bool {
    &&& -8_334_601_228_800 <= secs <= 8_210_266_876_799
    &&& (nanos < 1_000_000_000 || (nanos < 2_000_000_000 && secs % 60 == 59))
}

/// Whether a timestamp is one a new message can carry: a clock reading
/// that chrono can represent, or the Unix epoch itself.
pub open spec fn is_stamp(t: Timestamp) -> bool {
    &&& is_clock_reading(t)
    &&& (chrono_accepts(t.secs, t.nanos) || t == Timestamp { secs: 0, nanos: 0 })
}

#[verifier::external_type_specification]
#[verifier::external_body]
pub struct ExSystemTime(std::time::SystemTime);

/// `std::time::SystemTime::now`: the system clock's current reading.
/// Nothing is stated of it: it depends on when the call is made.
#[verifier::external_body]
fn system_time_now() -> std::time::SystemTime {
    std::time::SystemTime::now()
}

/// `SystemTime::duration_since(UNIX_EPOCH)`, with its error dropped: the
/// time elapsed since the Unix epoch, or `None` when the reading is earlier
/// than the epoch. Nothing else is stated: the reading comes from the clock.
#[verifier::external_body]
fn since_unix_epoch(t: &std::time::SystemTime) -> Option<core::time::Duration> {
    t.duration_since(std::time::UNIX_EPOCH).ok()
}

/// `Duration::as_secs`: the whole seconds of a duration; vstd states
/// nothing of `Duration`, and nothing is stated here either.
pub assume_specification[ core::time::Duration::as_secs ](d: &core::time::Duration) -> u64;

/// `Duration::subsec_nanos`: the fractional part of a duration in
/// nanoseconds, which its documentation says is always less than one second.
pub assume_specification[ core::time::Duration::subsec_nanos ](d: &core::time::Duration) -> (n:
    u32)
    ensures
        n < 1_000_000_000,
;

/// `chrono::DateTime::from_timestamp(secs, nanos).is_some()`: whether chrono
/// can represent the point in time. `from_timestamp` turns the seconds into
/// a day number counted from 1 January of year 1 (`div_euclid(86_400)` plus
/// 719,163) and the seconds within that day; it returns `None` when the day
/// is outside `NaiveDate`'s years -262143 to 262142, or when
/// `NaiveTime::from_num_seconds_from_midnight_opt` refuses the nanoseconds.
#[verifier::external_body]
fn chrono_represents(secs: i64, nanos: u32) -> (ok: bool)
    ensures
        ok == chrono_accepts(secs, nanos),
{
    chrono::DateTime::from_timestamp(secs, nanos).is_some()
}

/// The timestamp for a time elapsed since the Unix epoch, if an `i64` can
/// hold the seconds and chrono can represent the point in time.
pub fn timestamp_since_epoch(secs: u64, nanos: u32) -> (t: Option<Timestamp>)
    ensures
        t == (if secs <= i64::MAX && chrono_accepts(secs as i64, nanos) {
            Some(Timestamp { secs: secs as i64, nanos })
        } else {
            None::<Timestamp>
        }),
{
    if secs <= 9_223_372_036_854_775_807u64 && chrono_represents(secs as i64, nanos) {
        Some(Timestamp { secs: secs as i64, nanos })
    } else {
        None
    }
}

/// Reads the system clock: `None` when it reads before the Unix epoch, or
/// so far after it that chrono cannot represent the time, and otherwise the
/// time since the epoch.
pub fn now() -> (reading: Option<Timestamp>)
    ensures
        reading matches Some(t) ==> is_clock_reading(t) && chrono_accepts(t.secs, t.nanos),
{
    let clock = system_time_now();
    match since_unix_epoch(&clock) {
        Some(elapsed) => timestamp_since_epoch(elapsed.as_secs(), elapsed.subsec_nanos()),
        None => None,
    }
}

/// The time a new message is stamped with: the clock's reading, or the
/// Unix epoch itself when the clock could not be read.
pub open spec fn stamp_of(reading: Option<Timestamp>) -> Timestamp {
    match reading {
        Some(t) => t,
        None => Timestamp { secs: 0, nanos: 0 },
    }
}

/// The time to stamp a new message with, from a clock reading.
pub fn stamp(reading: Option<Timestamp>) -> (t: Timestamp)
    ensures
        t == stamp_of(reading),
{
    match reading {
        Some(t) => t,
        None => Timestamp { secs: 0, nanos: 0 },
    }
}

} // verus!
