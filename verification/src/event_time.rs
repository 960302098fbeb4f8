//! Event-time handling: parsing a record's datetime text into UTC
//! nanoseconds, truncating a time to minute granularity, and rendering the
//! minute-granular stamp used in file names.

use vstd::prelude::*;

verus! {

/// Nanoseconds in one minute.
pub const NANOS_PER_MINUTE: i64 = 60_000_000_000;

/// The smallest whole minute that the 64-bit nanosecond range can hold.
pub const LOWEST_MINUTE: i64 = -9_223_372_020_000_000_000;

/// The greatest whole minute at or below `t`.
pub open spec fn minute_floor(t: int) -> int {
    t - (t % (NANOS_PER_MINUTE as int))
}

/// `LOWEST_MINUTE` really is the least representable whole minute: a time's
/// minute floor stays in the 64-bit range exactly when the time is at or
/// above it.
pub proof fn lemma_minute_floor_range(t: i64)
    ensures
        i64::MIN <= minute_floor(t as int) <==> t >= LOWEST_MINUTE,
        minute_floor(t as int) <= t < minute_floor(t as int) + NANOS_PER_MINUTE,
        minute_floor(t as int) % (NANOS_PER_MINUTE as int) == 0,
{
    let c = NANOS_PER_MINUTE as int;
    let k: int = -153_722_867;
    vstd::arithmetic::div_mod::lemma_fundamental_div_mod(t as int, c);
    vstd::arithmetic::div_mod::lemma_mod_bound(t as int, c);
    vstd::arithmetic::div_mod::lemma_mod_multiples_basic(t as int / c, c);
    let q = t as int / c;
    assert(minute_floor(t as int) == c * q);
    if t >= LOWEST_MINUTE {
        // t = c * k + d with d >= 0, so t % c <= t - c * k.
        let d = t - c * k;
        vstd::arithmetic::div_mod::lemma_mod_multiples_vanish(k, d, c);
        assert((c * k + d) % c == d % c);
        vstd::arithmetic::div_mod::lemma_mod_bound(d, c);
        vstd::arithmetic::div_mod::lemma_mod_decreases(d as nat, c as nat);
        assert(minute_floor(t as int) >= c * k);
    }
    if minute_floor(t as int) >= i64::MIN {
        // c * q >= i64::MIN forces q >= k, hence t >= c * k.
        if q < k {
            vstd::arithmetic::mul::lemma_mul_inequality(q + 1, k, c);
            assert(c * (q + 1) <= c * k) by {
                vstd::arithmetic::mul::lemma_mul_is_commutative(q + 1, c);
                vstd::arithmetic::mul::lemma_mul_is_commutative(k, c);
            }
            assert(c * q + c <= c * k) by {
                vstd::arithmetic::mul::lemma_mul_is_distributive_add(c, q, 1);
            }
            assert(false);
        }
        vstd::arithmetic::mul::lemma_mul_inequality(k, q, c);
        assert(c * k <= c * q) by {
            vstd::arithmetic::mul::lemma_mul_is_commutative(k, c);
            vstd::arithmetic::mul::lemma_mul_is_commutative(q, c);
        }
    }
}

/// Truncates a UTC nanosecond time to the whole minute it falls in.
pub fn truncate_to_minute(t: i64) -> (r: i64)
    requires
        i64::MIN <= minute_floor(t as int),
    ensures
        r == minute_floor(t as int),
{
    proof {
        lemma_minute_floor_range(t);
    }
    let rem: i64 = t % NANOS_PER_MINUTE;
    if rem < 0 {
        t - rem - NANOS_PER_MINUTE
    } else {
        t - rem
    }
}

/// The minute column's value for an event time: the time truncated to its
/// minute, collapsing to 0 when the whole minute leaves the 64-bit
/// nanosecond range (as converting a truncated calendar time back to
/// nanoseconds does).
pub open spec fn minute_cell(t: i64) -> i64 {
    if i64::MIN <= minute_floor(t as int) {
        minute_floor(t as int) as i64
    } else {
        0
    }
}

/// Truncates an event time to its minute, collapsing to 0 when the whole
/// minute is not representable.
pub fn minute_of(t: i64) -> (r: i64)
    ensures
        r == minute_cell(t),
{
    proof {
        lemma_minute_floor_range(t);
    }
    if t >= LOWEST_MINUTE {
        truncate_to_minute(t)
    } else {
        0
    }
}

/// What parsing a datetime text yields: the event time in UTC nanoseconds,
/// or nothing when the text is not a valid timestamp. A time whose
/// nanosecond count leaves the 64-bit range collapses to 0.
pub uninterp spec fn event_time_nanos(s: Seq<char>) -> Option<i64>;

/// Relies on chrono's `FromStr` for `DateTime<Utc>` and on
/// `timestamp_nanos_opt`: parses a datetime text into UTC nanoseconds. Both
/// depend on the text alone.
#[verifier::external_body]
pub(crate) fn parse_event_time(s: &str) -> (r: Option<i64>)
    ensures
        r == event_time_nanos(s@),
{
    match s.parse::<chrono::DateTime<chrono::Utc>>() {
        Ok(dt) => Some(dt.timestamp_nanos_opt().unwrap_or_default()),
        Err(_) => None,
    }
}

/// What the minute-granular filename stamp of a UTC time is: its
/// `YYYYMMDDHHMM` rendering, a function of the time alone.
pub uninterp spec fn minute_stamp(t: i64) -> Seq<char>;

/// Relies on chrono's `DateTime::from_timestamp_nanos` and `format`: renders
/// the UTC time of a nanosecond count as `YYYYMMDDHHMM`.
#[verifier::external_body]
pub(crate) fn format_minute_stamp(t: i64) -> (r: String)
    ensures
        r@ == minute_stamp(t),
{
    chrono::DateTime::<chrono::Utc>::from_timestamp_nanos(t).format("%Y%m%d%H%M").to_string()
}

/// The system clock's raw reading, opaque to the verifier.
#[verifier::external_type_specification]
#[verifier::external_body]
pub struct ExSystemTime(std::time::SystemTime);

/// Relies on std's `SystemTime::now`: one clock reading, of which nothing
/// can be promised.
#[verifier::external_body]
fn system_now() -> std::time::SystemTime {
    std::time::SystemTime::now()
}

/// Relies on std's `SystemTime::duration_since`: the reading as UTC
/// nanoseconds since the epoch — 0 for a clock before the epoch or beyond
/// the 64-bit nanosecond range. Both arms are handled, so no clock value
/// can make it panic.
#[verifier::external_body]
fn nanos_since_epoch(t: std::time::SystemTime) -> i64 {
    match t.duration_since(std::time::UNIX_EPOCH) {
        Ok(d) => i64::try_from(d.as_nanos()).unwrap_or_default(),
        Err(_) => 0,
    }
}

/// The current UTC time in nanoseconds: a clock reading, of which nothing
/// more is promised.
pub(crate) fn now_nanos() -> i64 {
    nanos_since_epoch(system_now())
}

} // verus!
