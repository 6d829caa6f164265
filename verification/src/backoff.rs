//! When a failed attempt is tried again: exponential backoff up to once a
//! day, with no limit on the number of attempts.
//!
//! Instants are milliseconds since the Unix epoch (UTC).
use vstd::prelude::*;

verus! {

pub const MINUTT_MS: i64 = 60_000;

pub const TIME_MS: i64 = 3_600_000;

/// The wait after failed attempt number `attempt` (counted from 0).
pub open spec fn backoff_delay(attempt: u32) -> int {
    if attempt == 0 {
        MINUTT_MS as int
    } else if attempt == 1 {
        5 * MINUTT_MS
    } else if attempt == 2 {
        15 * MINUTT_MS
    } else if attempt == 3 {
        TIME_MS as int
    } else if attempt == 4 {
        6 * TIME_MS
    } else if attempt == 5 {
        12 * TIME_MS
    } else {
        24 * TIME_MS
    }
}

pub fn backoff_delay_ms(attempt: u32) -> (r: i64)
    ensures
        r == backoff_delay(attempt),
{
    if attempt == 0 {
        MINUTT_MS
    } else if attempt == 1 {
        5 * MINUTT_MS
    } else if attempt == 2 {
        15 * MINUTT_MS
    } else if attempt == 3 {
        TIME_MS
    } else if attempt == 4 {
        6 * TIME_MS
    } else if attempt == 5 {
        12 * TIME_MS
    } else {
        24 * TIME_MS
    }
}

/// One past the last millisecond a clock reading can hold: no date of the
/// clock lies 260 173 years or more after 1970, and no year has more than 366
/// days.
pub open spec fn klokke_grense_ms() -> int {
    10_000_000_000_000_000
}

/// A clock reading in milliseconds since the Unix epoch.
pub open spec fn klokke_ms(ms: int) -> bool {
    0 <= ms < klokke_grense_ms()
}

/// The current time. `chrono::Utc::now()` reads the system clock, so two
/// calls may give any two values. It takes the time elapsed since the Unix
/// epoch (and stops, by `expect`, on a clock set before it), and a `DateTime`
/// ends on `NaiveDate::MAX`, December 31 of year 262142; so the reading is a
/// count of milliseconds from 0 up to below `klokke_grense_ms()`. Which
/// reading comes back is not stated.
#[verifier::external_body]
pub(crate) fn utc_now_ms() -> (r: i64)
    ensures
        klokke_ms(r as int),
{
    chrono::Utc::now().timestamp_millis()
}

/// The next attempt after failed attempt `attempt`, counted from `now`;
/// `None` when the instant does not fit.
pub fn neste_backoff_fra(now: i64, attempt: u32) -> (r: Option<i64>)
    ensures
        r matches Some(t) ==> t == now + backoff_delay(attempt),
        r is None <==> now + backoff_delay(attempt) > i64::MAX,
{
    now.checked_add(backoff_delay_ms(attempt))
}

/// The next attempt after failed attempt `attempt`, counted from now: always
/// a clock reading with the wait for that attempt added.
pub fn neste_backoff(attempt: u32) -> (r: Option<i64>)
    ensures
        r matches Some(t) && klokke_ms(t - backoff_delay(attempt)),
{
    let now = utc_now_ms();
    neste_backoff_fra(now, attempt)
}

/// The wait before asking the archive again after it asked for `om_ms`
/// milliseconds: that wait where it is a span the clock can add (at most
/// `i64::MAX` milliseconds), else one hour.
pub open spec fn poll_ventetid(om_ms: u64) -> int {
    if om_ms <= i64::MAX {
        om_ms as int
    } else {
        TIME_MS as int
    }
}

pub fn poll_ventetid_ms(om_ms: u64) -> (r: i64)
    ensures
        r == poll_ventetid(om_ms),
{
    if om_ms <= i64::MAX as u64 {
        om_ms as i64
    } else {
        TIME_MS
    }
}

/// The next poll after the archive asked for `om_ms` milliseconds, counted
/// from `now`; `None` when the instant does not fit.
pub fn neste_poll_fra(now: i64, om_ms: u64) -> (r: Option<i64>)
    ensures
        r matches Some(t) ==> t == now + poll_ventetid(om_ms),
        r is None <==> now + poll_ventetid(om_ms) > i64::MAX,
{
    now.checked_add(poll_ventetid_ms(om_ms))
}

/// The next poll after the archive asked for `om_ms` milliseconds, counted
/// from now: a clock reading with the wait added, which fits whenever the
/// wait leaves room for every clock reading.
pub fn neste_poll(om_ms: u64) -> (r: Option<i64>)
    ensures
        r matches Some(t) ==> klokke_ms(t - poll_ventetid(om_ms)),
        poll_ventetid(om_ms) + klokke_grense_ms() <= i64::MAX ==> r is Some,
{
    let now = utc_now_ms();
    neste_poll_fra(now, om_ms)
}

/// The attempt number the backoff is counted from, for an attempt counter
/// that starts at 1: one less, but never below 0.
pub fn retry_attempt(attempt_no: i32) -> (r: u32)
    ensures
        attempt_no <= 1 ==> r == 0,
        attempt_no > 1 ==> r == attempt_no - 1,
{
    if attempt_no <= 1 {
        0
    } else {
        (attempt_no - 1) as u32
    }
}

/// `attempt` when non-negative, else 0.
pub fn non_negative_attempt(attempt: i32) -> (r: u32)
    ensures
        attempt < 0 ==> r == 0,
        attempt >= 0 ==> r == attempt,
{
    if attempt < 0 {
        0
    } else {
        attempt as u32
    }
}

// ---------------------------------------------------------------------------
// Laws
// ---------------------------------------------------------------------------

/// The wait never shrinks from one failed attempt to the next, and never
/// exceeds one day.
pub proof fn law_backoff_monotone_and_capped(a: u32, b: u32)
    requires
        a <= b,
    ensures
        backoff_delay(a) <= backoff_delay(b),
        backoff_delay(b) <= 24 * TIME_MS,
        backoff_delay(a) >= MINUTT_MS,
{
}

/// From the seventh failed attempt on, retries come once a day.
pub proof fn law_backoff_daily_from_attempt_six(a: u32)
    requires
        a >= 6,
    ensures
        backoff_delay(a) == 24 * TIME_MS,
{
}

} // verus!
