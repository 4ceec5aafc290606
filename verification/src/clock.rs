//! Points in time: the clock, and the RFC 2822 text of a point in time,
//! both from the `chrono` crate.

use crate::model::Time;
use vstd::prelude::*;

verus! {

/// The first second that RFC 2822 text can show: 0000-01-01 00:00:00 UTC.
pub const RFC2822_FIRST_SECOND: i64 = -62167219200;

/// The last second that RFC 2822 text can show: 9999-12-31 23:59:59 UTC.
pub const RFC2822_LAST_SECOND: i64 = 253402300799;

/// Nanoseconds in a second.
pub const NANOS_PER_SEC: u32 = 1_000_000_000;

/// Nanoseconds that chrono accepts with the given second: less than two
/// seconds' worth, and a second's worth or more (a leap second) only in the
/// last second of a minute.
pub open spec fn nanos_valid(t: Time) -> bool {
    &&& t.nanos < 2 * NANOS_PER_SEC
    &&& t.nanos >= NANOS_PER_SEC ==> t.secs % 60 == 59
}

/// A point in time whose year has four digits and is not negative, which
/// is what RFC 2822 text can show, with nanoseconds that chrono accepts.
pub open spec fn rfc2822_representable(t: Time) -> bool {
    &&& RFC2822_FIRST_SECOND <= t.secs <= RFC2822_LAST_SECOND
    &&& nanos_valid(t)
}

/// The RFC 2822 text of a point in time in UTC, such as
/// `Tue, 1 Jul 2003 10:52:37 +0000`, as chrono writes it (a leap second as
/// second 60).
pub uninterp spec fn rfc2822_text(secs: i64, nanos: u32) -> Seq<char>;

/// Calls `chrono::DateTime::<Utc>::from_timestamp(secs, nanos)` and then
/// `DateTime::to_rfc2822` on the result. The contract claims that the text
/// is a function of the point in time alone, and that neither call fails
/// on a point in time whose year is between 0 and 9999 and whose
/// nanoseconds chrono accepts: `from_timestamp` accepts every such point,
/// and `to_rfc2822` panics only on a negative year or one of more than four
/// digits.
#[verifier::external_body]
pub(crate) fn rfc2822(t: Time) -> (r: String)
    requires
        rfc2822_representable(t),
    ensures
        r@ == rfc2822_text(t.secs, t.nanos),
{
    match chrono::DateTime::from_timestamp(t.secs, t.nanos) {
        Some(d) => d.to_rfc2822(),
        None => String::new(),
    }
}

/// The time now, from `chrono::Utc::now`, as `DateTime::timestamp` and
/// `DateTime::timestamp_subsec_nanos` give it. The contract claims only
/// that the nanoseconds are below a second's worth (`Utc::now` makes the
/// time from the system clock's whole seconds and the nanoseconds past
/// them); the values come from the system clock.
#[verifier::external_body]
pub(crate) fn now() -> (r: Time)
    ensures
        r.nanos < NANOS_PER_SEC,
{
    let t = chrono::Utc::now();
    Time { secs: t.timestamp(), nanos: t.timestamp_subsec_nanos() }
}

} // verus!
