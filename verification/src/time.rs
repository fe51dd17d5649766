//! Points in time, held as whole seconds since the Unix epoch and the
//! nanoseconds since that second began, and the few operations on them that
//! the library needs from `chrono`.

use vstd::prelude::*;

verus! {

/// The first second of `chrono`'s range (-262143-01-01T00:00:00Z), since the Unix epoch.
pub const MIN_TIMESTAMP_SECONDS: i64 = -8334601228800i64;

/// The last second of `chrono`'s range (+262142-12-31T23:59:59Z), since the Unix epoch.
pub const MAX_TIMESTAMP_SECONDS: i64 = 8210266876799i64;

/// Nanoseconds in one second.
pub const NANOS_PER_SECOND: i64 = 1000000000i64;

/// Seconds in one day.
pub const SECONDS_PER_DAY: i64 = 86400i64;

/// The longest span, in whole seconds, that a `chrono::TimeDelta` holds.
pub const MAX_DELTA_SECONDS: i64 = 9223372036854775i64;

/// An instant as `chrono` holds it: whole seconds since the Unix epoch, and
/// the nanoseconds since that second began. During a leap second the
/// nanoseconds run on past one second, on the last second of a minute.
pub struct Moment {
    pub secs: int,
    pub nanos: int,
}

/// Whether `t` is an instant `chrono` can represent: its seconds lie in the
/// range, and its nanoseconds are below one second, or below two seconds on
/// the last second of a minute (a leap second).
pub open spec fn is_timestamp(t: Moment) -> bool {
    &&& MIN_TIMESTAMP_SECONDS <= t.secs <= MAX_TIMESTAMP_SECONDS
    &&& 0 <= t.nanos
    &&& (t.nanos < NANOS_PER_SECOND || (t.nanos < 2 * NANOS_PER_SECOND && t.secs % 60 == 59))
}

/// Whether `a` comes after `b`: instants are ordered by their seconds, then
/// by their nanoseconds, so a leap second follows the second it extends.
pub open spec fn later(a: Moment, b: Moment) -> bool {
    a.secs > b.secs || (a.secs == b.secs && a.nanos > b.nanos)
}

/// `t` moved by `delta` whole seconds. A leap second counts as the second it
/// extends: leaving it forwards lands on the following seconds, leaving it
/// backwards lands on that second itself and before, both with the
/// nanoseconds past the leap taken off.
pub open spec fn add_seconds(t: Moment, delta: int) -> Moment {
    if t.nanos >= NANOS_PER_SECOND && delta > 0 {
        Moment { secs: t.secs + delta, nanos: t.nanos - NANOS_PER_SECOND }
    } else if t.nanos >= NANOS_PER_SECOND && delta < 0 {
        Moment { secs: t.secs + delta + 1, nanos: t.nanos - NANOS_PER_SECOND }
    } else {
        Moment { secs: t.secs + delta, nanos: t.nanos }
    }
}

/// A UTC instant with nanosecond resolution.
#[derive(Clone, Copy, Debug, PartialEq, Eq, Hash, PartialOrd, Ord)]
pub struct Timestamp {
    pub(crate) secs: i64,
    pub(crate) nanos: u32,
}

impl View for Timestamp {
    type V = Moment;

    closed spec fn view(&self) -> Moment {
        Moment { secs: self.secs as int, nanos: self.nanos as int }
    }
}

impl Timestamp {
    #[verifier::type_invariant]
    pub(crate) open spec fn inv(self) -> bool {
        is_timestamp(self@)
    }

    /// The instant `secs` seconds and `subsec_nanos` nanoseconds after the
    /// Unix epoch, if `chrono` can represent it.
    pub fn from_parts(secs: i64, subsec_nanos: u32) -> (r: Option<Timestamp>)
        ensures
            r is Some <==> is_timestamp(Moment { secs: secs as int, nanos: subsec_nanos as int }),
            r matches Some(t) ==> t@ == (Moment { secs: secs as int, nanos: subsec_nanos as int }),
    {
        if secs < MIN_TIMESTAMP_SECONDS || secs > MAX_TIMESTAMP_SECONDS {
            return None;
        }
        let in_second: bool = (subsec_nanos as i64) < NANOS_PER_SECOND;
        let in_leap_second: bool = (subsec_nanos as i64) < 2 * NANOS_PER_SECOND && match secs.checked_rem_euclid(60) {
            Some(r) => r == 59,
            None => false,
        };
        if in_second || in_leap_second {
            Some(Timestamp { secs, nanos: subsec_nanos })
        } else {
            None
        }
    }

    /// Whole seconds since the Unix epoch.
    pub fn secs(&self) -> (r: i64)
        ensures
            r == self@.secs,
            is_timestamp(self@),
    {
        proof {
            use_type_invariant(self);
        }
        self.secs
    }

    /// The nanoseconds since the second began (one second more during a leap
    /// second).
    pub fn subsec_nanos(&self) -> (r: u32)
        ensures
            r == self@.nanos,
            is_timestamp(self@),
    {
        proof {
            use_type_invariant(self);
        }
        self.nanos
    }

    /// Whether this instant is later than `other`.
    pub fn is_after(&self, other: &Timestamp) -> (r: bool)
        ensures
            r == later(self@, other@),
    {
        self.secs > other.secs || (self.secs == other.secs && self.nanos > other.nanos)
    }

    /// The current time, read from the system clock.
    pub fn now() -> (r: Timestamp)
        ensures
            0 <= r@.secs,
            r@.nanos < NANOS_PER_SECOND,
            is_timestamp(r@),
    {
        let (secs, nanos) = utc_now_parts();
        Timestamp { secs, nanos }
    }

    /// This instant moved by `delta` whole seconds, or `None` where the
    /// result lies outside what `chrono` can represent.
    pub fn checked_add_seconds(&self, delta: i64) -> (r: Option<Timestamp>)
        ensures
            r is Some <==> is_timestamp(add_seconds(self@, delta as int)),
            r matches Some(t) ==> t@ == add_seconds(self@, delta as int),
    {
        proof {
            use_type_invariant(self);
        }
        match chrono_checked_add_seconds(self.secs, self.nanos, delta) {
            Some((secs, nanos)) => Some(Timestamp { secs, nanos }),
            None => None,
        }
    }
}

/// `chrono::Utc::now`, read as its `timestamp` and `timestamp_subsec_nanos`.
/// Claimed: the seconds are at or after the epoch and within `chrono`'s
/// range, and the nanoseconds are less than a second (`Utc::now` unwraps
/// `duration_since(UNIX_EPOCH)` and builds the value with
/// `DateTime::from_timestamp` from `as_secs` and `subsec_nanos`).
/// Not claimed: which instant it is; it panics where the system clock reads
/// before 1970, which no argument can rule out.
#[verifier::external_body]
fn utc_now_parts() -> (r: (i64, u32))
    ensures
        0 <= r.0 <= MAX_TIMESTAMP_SECONDS,
        r.1 < NANOS_PER_SECOND,
{
    let now = chrono::Utc::now();
    (now.timestamp(), now.timestamp_subsec_nanos())
}

/// `chrono::DateTime::<Utc>::checked_add_signed` on the instant
/// `DateTime::from_timestamp(secs, nanos)` and the span
/// `TimeDelta::try_seconds(delta)`, read back with `timestamp` and
/// `timestamp_subsec_nanos`.
/// Claimed: where `from_timestamp` accepts the start (the seconds in range,
/// the nanoseconds below a second, or below two on the last second of a
/// minute), `try_seconds` accepts the span and the end lies in the range,
/// the end is the start moved as `NaiveTime::overflowing_add_signed` moves a
/// time by whole seconds (see `add_seconds`); otherwise `None`.
#[verifier::external_body]
fn chrono_checked_add_seconds(secs: i64, nanos: u32, delta: i64) -> (r: Option<(i64, u32)>)
    ensures
        r == (if is_timestamp(Moment { secs: secs as int, nanos: nanos as int })
            && -MAX_DELTA_SECONDS <= delta <= MAX_DELTA_SECONDS
            && MIN_TIMESTAMP_SECONDS <= add_seconds(
                Moment { secs: secs as int, nanos: nanos as int },
                delta as int,
            ).secs <= MAX_TIMESTAMP_SECONDS {
            Some(
                (
                    add_seconds(Moment { secs: secs as int, nanos: nanos as int }, delta as int).secs as i64,
                    add_seconds(Moment { secs: secs as int, nanos: nanos as int }, delta as int).nanos as u32,
                ),
            )
        } else {
            None::<(i64, u32)>
        }),
{
    let start = chrono::DateTime::<chrono::Utc>::from_timestamp(secs, nanos)?;
    let end = start.checked_add_signed(chrono::TimeDelta::try_seconds(delta)?)?;
    Some((end.timestamp(), end.timestamp_subsec_nanos()))
}

} // verus!
