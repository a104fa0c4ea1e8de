//! Retention of check history: settings and what a cleanup pass deletes.
use vstd::prelude::*;
use crate::clock::{format_rfc3339, rfc3339_text, Instant};
use crate::text::{parse_u64, parse_u64_spec};

verus! {

/// How long history is kept and how often it is pruned.
#[derive(Debug, Clone)]
pub struct HistoryRetention {
    pub retention_days: u64,
    pub max_per_check: u64,
    pub cleanup_interval_secs: u64,
}

/// A setting read from text: the parsed number, or `default` when the text
/// is missing or not a number.
pub open spec fn setting_value(value: Option<Seq<char>>, default: u64) -> u64 {
    match value {
        Some(v) => match parse_u64_spec(v) {
            Some(n) => n,
            None => default,
        },
        None => default,
    }
}

/// Reads one numeric setting (an environment variable's value, if set).
pub fn env_u64(value: Option<&str>, default: u64) -> (r: u64)
    ensures
        r == setting_value(
            match value {
                Some(v) => Some(v@),
                None => None,
            },
            default,
        ),
{
    match value {
        Some(v) => match parse_u64(v) {
            Some(n) => n,
            None => default,
        },
        None => default,
    }
}

impl HistoryRetention {
    /// The retention settings from the values of `HISTORY_RETENTION_DAYS`
    /// (default 30), `HISTORY_MAX_PER_CHECK` (default 1000) and
    /// `HISTORY_CLEANUP_INTERVAL_SECS` (default 3600).
    pub fn from_env(
        retention_days: Option<&str>,
        max_per_check: Option<&str>,
        cleanup_interval_secs: Option<&str>,
    ) -> (r: Self)
        ensures
            r.retention_days == setting_value(
                match retention_days {
                    Some(v) => Some(v@),
                    None => None,
                },
                30,
            ),
            r.max_per_check == setting_value(
                match max_per_check {
                    Some(v) => Some(v@),
                    None => None,
                },
                1000,
            ),
            r.cleanup_interval_secs == setting_value(
                match cleanup_interval_secs {
                    Some(v) => Some(v@),
                    None => None,
                },
                3600,
            ),
    {
        HistoryRetention {
            retention_days: env_u64(retention_days, 30),
            max_per_check: env_u64(max_per_check, 1000),
            cleanup_interval_secs: env_u64(cleanup_interval_secs, 3600),
        }
    }
}

/// True when `days` whole days make a time span that `chrono` can hold.
pub open spec fn days_span_ok(days: i64) -> bool {
    -9223372036854775 <= days * 86400 <= 9223372036854775
}

/// The time `days` days before `now`.
pub open spec fn days_before(now: Instant, days: i64) -> Instant {
    Instant { secs: (now.secs - days * 86400) as i64, nanos: now.nanos }
}

/// The RFC 3339 time before which history is deleted, when age-based
/// deletion is on (`retention_days > 0`): `None` when it is off, `Some(None)`
/// when the cutoff lies outside the dates that `chrono` represents.
pub fn retention_cutoff(now: Instant, retention_days: u64) -> (r: Option<Option<String>>)
    requires
        retention_days > 0 ==> days_span_ok(retention_days as i64),
        retention_days > 0 ==> i64::MIN <= now.secs - (retention_days as i64) * 86400 <= i64::MAX,
    ensures
        retention_days == 0 ==> r is None,
        retention_days > 0 ==> (r matches Some(c) && match c {
            Some(s) => rfc3339_text(days_before(now, retention_days as i64)) == Some(s@),
            None => rfc3339_text(days_before(now, retention_days as i64)) is None,
        }),
{
    if retention_days == 0 {
        return None;
    }
    let days = retention_days as i64;
    let span: i64 = days * 86400;
    let secs: i64 = now.secs - span;
    Some(format_rfc3339(Instant { secs, nanos: now.nanos }))
}

/// True when the cutoff `retention_days` days before `now` can be computed:
/// the span fits a `chrono` time span and the result fits a timestamp (the
/// condition under which `retention_cutoff` may be called).
pub fn cutoff_in_range(now: Instant, retention_days: u64) -> (r: bool)
    ensures
        r == (days_span_ok(retention_days as i64) && i64::MIN <= now.secs - (retention_days as i64)
            * 86400 <= i64::MAX),
{
    let days = retention_days as i64;
    let span: i128 = days as i128 * 86400;
    if span < -9223372036854775 || span > 9223372036854775 {
        return false;
    }
    let secs: i128 = now.secs as i128 - span;
    i64::MIN as i128 <= secs && secs <= i64::MAX as i128
}

/// How many newest runs per check are kept, when count-based deletion is on.
pub fn keep_per_check(retention: &HistoryRetention) -> (r: Option<i64>)
    ensures
        retention.max_per_check == 0 ==> r is None,
        retention.max_per_check > 0 ==> r == Some(retention.max_per_check as i64),
{
    if retention.max_per_check > 0 {
        Some(retention.max_per_check as i64)
    } else {
        None
    }
}

/// Seconds between cleanup passes: the configured interval, at least 60.
pub fn cleanup_interval(retention: &HistoryRetention) -> (r: u64)
    ensures
        r == if retention.cleanup_interval_secs < 60 { 60 } else { retention.cleanup_interval_secs },
        r >= 60,
{
    if retention.cleanup_interval_secs < 60 {
        60
    } else {
        retention.cleanup_interval_secs
    }
}

/// A setting that is missing or does not read as a number takes its
/// default; one that reads as a number takes that number.
pub proof fn lemma_setting_value(value: Option<Seq<char>>, default: u64)
    ensures
        value is None ==> setting_value(value, default) == default,
        value matches Some(v) ==> match parse_u64_spec(v) {
            Some(n) => setting_value(value, default) == n,
            None => setting_value(value, default) == default,
        },
{
}

} // verus!
