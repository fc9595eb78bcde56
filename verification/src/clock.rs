//! Instants of UTC time as Unix seconds and nanoseconds, with the arithmetic
//! of `chrono::DateTime<Utc>` on them.

use vstd::prelude::*;

verus! {

/// An instant of UTC time: whole seconds since the Unix epoch and the
/// nanoseconds within that second (at least 10^9 only inside a leap second),
/// as `DateTime::<Utc>::timestamp` and `timestamp_subsec_nanos` give them.
#[derive(PartialEq, Eq, Structural, Debug, Clone, Copy)]
pub struct UtcInstant {
    pub secs: i64,
    pub nanos: u32,
}

/// The timestamp of `DateTime::<Utc>::MIN_UTC` (January 1, 262144 BCE).
pub open spec fn earliest_timestamp() -> int {
    -8334601228800
}

/// The timestamp of `DateTime::<Utc>::MAX_UTC` (December 31, 262142 CE, 23:59:59).
pub open spec fn latest_timestamp() -> int {
    8210266876799
}

/// The largest number of whole seconds a `TimeDelta` holds (`i64::MAX / 1000`).
pub open spec fn max_delta_secs() -> int {
    9223372036854775
}

/// Whether a second count lies in the range of `DateTime<Utc>`.
pub open spec fn in_range(secs: int) -> bool {
    earliest_timestamp() <= secs <= latest_timestamp()
}

/// `at` moved by `delta` whole seconds, when both the shift and the result
/// are representable; otherwise `None`.
pub open spec fn shifted(at: UtcInstant, delta: int) -> Option<UtcInstant> {
    if -max_delta_secs() <= delta <= max_delta_secs() && in_range(at.secs + delta) {
        Some(UtcInstant { secs: (at.secs + delta) as i64, nanos: at.nanos })
    } else {
        None
    }
}

/// `a` is not later than `b` (the order of `DateTime<Utc>`).
pub open spec fn not_after(a: UtcInstant, b: UtcInstant) -> bool {
    a.secs < b.secs || (a.secs == b.secs && a.nanos <= b.nanos)
}

/// `DateTime::<Utc>::checked_add_signed` with a whole number of seconds
/// (`TimeDelta::try_seconds`). For an instant outside a leap second and in
/// range, chrono adds the seconds and keeps the nanoseconds, and returns
/// `None` when the delta or the result leaves the representable range.
/// Nothing is claimed here of instants inside a leap second.
#[verifier::external_body]
pub(crate) fn checked_add_seconds(at: UtcInstant, delta: i64) -> (r: Option<UtcInstant>)
    ensures
        at.nanos < 1_000_000_000 && in_range(at.secs as int) ==> r == shifted(at, delta as int),
{
    let t = chrono::DateTime::from_timestamp(at.secs, at.nanos)?;
    let moved = t.checked_add_signed(chrono::TimeDelta::try_seconds(delta)?)?;
    Some(UtcInstant { secs: moved.timestamp(), nanos: moved.timestamp_subsec_nanos() })
}

/// `chrono::Utc::now`. It reads the system clock through `SystemTime`, which
/// gives a time after the epoch and nanoseconds below one second, and it
/// builds the instant with `DateTime::from_timestamp(..).unwrap()`, so the
/// result lies in range. Which instant comes back is not stated.
#[verifier::external_body]
pub(crate) fn utc_now() -> (t: UtcInstant)
    ensures
        0 <= t.secs <= latest_timestamp(),
        t.nanos < 1_000_000_000,
{
    let now = chrono::Utc::now();
    UtcInstant { secs: now.timestamp(), nanos: now.timestamp_subsec_nanos() }
}

/// Whether `a` is not later than `b`.
pub fn is_not_after(a: UtcInstant, b: UtcInstant) -> (r: bool)
    ensures
        r == not_after(a, b),
{
    a.secs < b.secs || (a.secs == b.secs && a.nanos <= b.nanos)
}

} // verus!
