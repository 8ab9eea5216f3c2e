//! Laws of the spans of time.

use crate::duration::Duration;
use vstd::prelude::*;

verus! {

/// A span counts its seconds as 1,000,000,000 nanoseconds each.
pub proof fn law_seconds_in_nanoseconds(secs: u64, d: Duration, nanos: u128)
    requires
        call_ensures(Duration::from_secs, (secs,), d),
        call_ensures(Duration::as_nanos, (&d,), nanos),
    ensures
        nanos == secs * 1_000_000_000,
        d@ == nanos,
{
}

/// A span counts its milliseconds as 1,000,000 nanoseconds each, and gives them back.
pub proof fn law_milliseconds_in_nanoseconds(millis: u64, d: Duration, nanos: u128, back: u128)
    requires
        call_ensures(Duration::from_millis, (millis,), d),
        call_ensures(Duration::as_nanos, (&d,), nanos),
        call_ensures(Duration::as_millis, (&d,), back),
    ensures
        nanos == millis * 1_000_000,
        back == millis,
        d@ == nanos,
{
}

/// A span of seconds and nanoseconds is as long as both together.
pub proof fn law_parts_add_up(secs: u64, nanos: u32, d: Duration, all: u128)
    requires
        call_ensures(Duration::new, (secs, nanos), d),
        call_ensures(Duration::as_nanos, (&d,), all),
    ensures
        all == secs * 1_000_000_000 + nanos,
{
}

/// The whole milliseconds of a span are those that it is long enough for.
pub proof fn law_whole_milliseconds(d: Duration, nanos: u128, millis: u128)
    requires
        call_ensures(Duration::as_nanos, (&d,), nanos),
        call_ensures(Duration::as_millis, (&d,), millis),
    ensures
        millis * 1_000_000 <= nanos < (millis + 1) * 1_000_000,
{
}

/// Spans are compared by their nanoseconds, and only the empty one is zero.
pub proof fn law_spans_compare(a: Duration, b: Duration, x: u128, y: u128, longer: bool, zero: bool)
    requires
        call_ensures(Duration::as_nanos, (&a,), x),
        call_ensures(Duration::as_nanos, (&b,), y),
        call_ensures(Duration::is_longer_than, (&a, &b), longer),
        call_ensures(Duration::is_zero, (&a,), zero),
    ensures
        longer <==> x > y,
        zero <==> x == 0,
{
}

/// The shorter of two spans is one of them and no longer than either.
pub proof fn law_shorter_of_two(a: Duration, b: Duration, r: Duration)
    requires
        call_ensures(Duration::min, (a, b), r),
    ensures
        r@ <= a@,
        r@ <= b@,
        r@ == a@ || r@ == b@,
{
}

/// Two spans end to end are as long as both together, and are refused just where that is more than
/// `u64::MAX` seconds and 999,999,999 nanoseconds.
pub proof fn law_spans_add_up(a: Duration, b: Duration, r: Option<Duration>)
    requires
        call_ensures(Duration::checked_add, (a, b), r),
    ensures
        r is Some <==> a@ + b@ <= u64::MAX * 1_000_000_000 + 999_999_999,
        r matches Some(sum) ==> sum@ == a@ + b@,
{
}

} // verus!
