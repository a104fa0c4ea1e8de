//! Points in time and the time elapsed between them, as the `chrono` crate
//! computes it.
use vstd::prelude::*;

verus! {

/// A point in time: whole seconds since the Unix epoch and the fraction in
/// nanoseconds (one second or more inside a leap second).
#[derive(Debug, Clone, Copy, PartialEq, Eq, Structural)]
pub struct Instant {
    pub secs: i64,
    pub nanos: u32,
}

/// What `chrono::DateTime::parse_from_rfc3339` makes of a text, as the
/// parsed time's timestamp and sub-second nanoseconds, or `None` when the
/// text is not RFC 3339.
pub uninterp spec fn rfc3339_instant(text: Seq<char>) -> Option<Instant>;

/// `chrono::DateTime::parse_from_rfc3339`, read back as a timestamp and its
/// sub-second nanoseconds. The contract names the outcome; which texts parse
/// is left to the name.
#[verifier::external_body]
pub fn parse_rfc3339(text: &str) -> (r: Option<Instant>)
    ensures
        r == rfc3339_instant(text@),
{
    match chrono::DateTime::parse_from_rfc3339(text) {
        Ok(t) => Some(Instant { secs: t.timestamp(), nanos: t.timestamp_subsec_nanos() }),
        Err(_) => None,
    }
}

/// The second of the day (from midnight UTC) of a timestamp.
pub open spec fn second_of_day(ts: int) -> int {
    ts % 86400
}

/// Nanoseconds from `then` to `now`, as `signed_duration_since` counts
/// them: a leap second still to be passed counts as one more second.
pub open spec fn elapsed_nanos(now: Instant, then: Instant) -> int {
    let leap = if second_of_day(now.secs as int) > second_of_day(then.secs as int) && then.nanos
        >= 1_000_000_000 {
        1int
    } else if second_of_day(now.secs as int) < second_of_day(then.secs as int) && now.nanos
        >= 1_000_000_000 {
        -1int
    } else {
        0int
    };
    (now.secs - then.secs + leap) * 1_000_000_000 + now.nanos - then.nanos
}

/// Whole seconds in a span of nanoseconds, rounded toward zero (`num_seconds`).
pub open spec fn whole_seconds(nanos: int) -> int {
    if nanos >= 0 {
        nanos / 1_000_000_000
    } else {
        -((-nanos) / 1_000_000_000)
    }
}

/// Whole seconds from `then` to `now`
/// (`now.signed_duration_since(then).num_seconds()`).
pub open spec fn elapsed_secs(now: Instant, then: Instant) -> int {
    whole_seconds(elapsed_nanos(now, then))
}

/// No time passes from a point in time to itself.
pub proof fn lemma_elapsed_self(t: Instant)
    ensures
        elapsed_secs(t, t) == 0,
{
}

/// A later whole second is at least one second later.
pub proof fn lemma_elapsed_whole_seconds(now: Instant, then: Instant)
    requires
        now.nanos == then.nanos,
        now.nanos < 1_000_000_000,
    ensures
        elapsed_secs(now, then) == now.secs - then.secs,
{
    let d = now.secs - then.secs;
    assert(elapsed_nanos(now, then) == d * 1_000_000_000);
    if d >= 0 {
        assert((d * 1_000_000_000) / 1_000_000_000 == d) by (nonlinear_arith);
    } else {
        assert(((-d) * 1_000_000_000) / 1_000_000_000 == -d) by (nonlinear_arith);
        assert(-(d * 1_000_000_000) == (-d) * 1_000_000_000) by (nonlinear_arith);
    }
}

fn day_second(ts: i64) -> (r: i64)
    ensures
        r == second_of_day(ts as int),
{
    let m = ts % 86400;
    if m < 0 {
        m + 86400
    } else {
        m
    }
}

/// Whole seconds from `then` to `now` (see `elapsed_secs`).
pub fn elapsed_whole_secs(now: Instant, then: Instant) -> (r: i128)
    ensures
        r == elapsed_secs(now, then),
{
    let a = day_second(now.secs);
    let b = day_second(then.secs);
    let leap: i128 = if a > b && then.nanos >= 1_000_000_000 {
        1
    } else if a < b && now.nanos >= 1_000_000_000 {
        -1
    } else {
        0
    };
    let total: i128 = (now.secs as i128 - then.secs as i128 + leap) * 1_000_000_000
        + now.nanos as i128 - then.nanos as i128;
    if total >= 0 {
        total / 1_000_000_000
    } else {
        0 - ((0 - total) / 1_000_000_000)
    }
}

/// True when at least `secs` whole seconds passed from `then` to `now`.
pub fn elapsed_at_least(now: Instant, then: Instant, secs: i64) -> (r: bool)
    ensures
        r == (elapsed_secs(now, then) >= secs),
{
    elapsed_whole_secs(now, then) >= secs as i128
}

/// What `chrono` writes for the UTC time `t` with `to_rfc3339`, or `None`
/// when `t` lies outside the dates `chrono` represents.
pub uninterp spec fn rfc3339_text(t: Instant) -> Option<Seq<char>>;

/// `chrono::DateTime::<Utc>::from_timestamp` followed by `to_rfc3339`: the
/// RFC 3339 text of a UTC time. The contract names the text.
#[verifier::external_body]
pub fn format_rfc3339(t: Instant) -> (r: Option<String>)
    ensures
        match r {
            Some(s) => rfc3339_text(t) == Some(s@),
            None => rfc3339_text(t) is None,
        },
{
    match chrono::DateTime::from_timestamp(t.secs, t.nanos) {
        Some(d) => Some(d.to_rfc3339()),
        None => None,
    }
}

/// The time from `a` to `b` is the opposite of the time from `b` to `a`.
pub proof fn lemma_elapsed_antisymmetric(a: Instant, b: Instant)
    ensures
        elapsed_secs(a, b) == -elapsed_secs(b, a),
{
    assert(elapsed_nanos(a, b) == -elapsed_nanos(b, a));
}

} // verus!
