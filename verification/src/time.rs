//! Wall-clock timestamps and the reading of client-supplied timestamps.
use vstd::prelude::*;
use std::time::{Duration, SystemTime, UNIX_EPOCH};
use crate::text::{decimal, i64_to_decimal, nat_digits};

verus! {

#[verifier::external_type_specification]
#[verifier::external_body]
pub struct ExSystemTime(SystemTime);

/// `SystemTime::now`: the machine's clock. Nothing is promised of the value.
#[verifier::external_body]
fn system_now() -> SystemTime {
    SystemTime::now()
}

/// `SystemTime::duration_since` against `UNIX_EPOCH`: `None` when the time lies
/// before the epoch. Nothing is promised of the duration.
#[verifier::external_body]
fn since_unix_epoch(t: &SystemTime) -> Option<Duration> {
    match t.duration_since(UNIX_EPOCH) {
        Ok(d) => Some(d),
        Err(_) => None,
    }
}

/// `Duration::as_secs`: the whole seconds of a duration. Nothing is promised
/// of the value.
#[verifier::external_body]
fn whole_seconds(d: &Duration) -> u64 {
    d.as_secs()
}

/// Seconds since the epoch as an `i64`, when they fit.
pub fn unix_seconds_to_timestamp(secs: u64) -> (t: Option<i64>)
    ensures
        t == (if secs <= i64::MAX { Some(secs as i64) } else { None::<i64> }),
{
    if secs <= i64::MAX as u64 {
        Some(secs as i64)
    } else {
        None
    }
}

/// The current time in whole seconds since the Unix epoch; `None` when the
/// clock reads a time before the epoch or beyond what an `i64` holds.
pub fn timestamp() -> (t: Option<i64>)
    ensures
        t matches Some(v) ==> v >= 0,
{
    let now = system_now();
    match since_unix_epoch(&now) {
        None => None,
        Some(d) => unix_seconds_to_timestamp(whole_seconds(&d)),
    }
}

/// A point in time given in seconds or in milliseconds since the epoch.
#[derive(Debug, Clone, Copy, PartialEq, Eq, Structural)]
pub enum Instant {
    Seconds(i64),
    Millis(i64),
}

/// The milliseconds since the epoch that an instant denotes.
pub open spec fn instant_millis(i: Instant) -> int {
    match i {
        Instant::Seconds(s) => s * 1000,
        Instant::Millis(m) => m as int,
    }
}

/// How a client timestamp is read: ten characters are seconds, thirteen are
/// milliseconds, anything else is the epoch.
pub open spec fn instant_of(ts: int) -> Instant {
    let n = decimal(ts).len();
    if n == 10 {
        Instant::Seconds(ts as i64)
    } else if n == 13 {
        Instant::Millis(ts as i64)
    } else {
        Instant::Millis(0)
    }
}

/// Reads a client timestamp by the number of characters of its decimal text.
pub fn timestamp_to_instant(timestamp: i64) -> (i: Instant)
    ensures
        i == instant_of(timestamp as int),
{
    let text = i64_to_decimal(timestamp);
    let length = text.as_str().unicode_len();
    if length == 10 {
        Instant::Seconds(timestamp)
    } else if length == 13 {
        Instant::Millis(timestamp)
    } else {
        Instant::Millis(0)
    }
}

proof fn lemma_nat_digits_times_ten(n: nat)
    requires
        n >= 1,
    ensures
        nat_digits(n * 10) == nat_digits(n).push('0'),
{
    assert((n * 10) / 10 == n);
    assert((n * 10) % 10 == 0);
}

proof fn lemma_decimal_times_thousand_len(ts: int)
    requires
        ts != 0,
    ensures
        decimal(ts * 1000).len() == decimal(ts).len() + 3,
{
    let m: nat = if ts < 0 { (-ts) as nat } else { ts as nat };
    lemma_nat_digits_times_ten(m);
    lemma_nat_digits_times_ten(m * 10);
    lemma_nat_digits_times_ten(m * 100);
    assert(m * 10 * 10 == m * 100);
    assert(m * 100 * 10 == m * 1000);
    if ts < 0 {
        assert((-(ts * 1000)) as nat == m * 1000);
    } else {
        assert((ts * 1000) as nat == m * 1000);
    }
}

/// A timestamp written in seconds and the same moment written in
/// milliseconds are read as the same instant.
pub proof fn law_seconds_and_millis_agree(ts: i64)
    requires
        decimal(ts as int).len() == 10,
    ensures
        -10_000_000_000 < ts < 10_000_000_000,
        instant_millis(instant_of(ts * 1000)) == instant_millis(instant_of(ts as int)),
{
    assert(ts != 0);
    lemma_digits_bound(ts as int);
    lemma_decimal_times_thousand_len(ts as int);
}

proof fn lemma_nat_digits_bound(n: nat, k: nat)
    requires
        nat_digits(n).len() <= k,
    ensures
        n < pow10(k),
    decreases n,
{
    if n >= 10 {
        lemma_nat_digits_bound(n / 10, (k - 1) as nat);
        assert(pow10(k) == 10 * pow10((k - 1) as nat));
    } else {
        assert(k >= 1);
        lemma_pow10_at_least_ten(k);
    }
}

proof fn lemma_pow10_at_least_ten(k: nat)
    requires
        k >= 1,
    ensures
        pow10(k) >= 10,
    decreases k,
{
    if k > 1 {
        lemma_pow10_at_least_ten((k - 1) as nat);
    } else {
        assert(pow10(0) == 1);
    }
}

/// Ten to the power `k`.
pub open spec fn pow10(k: nat) -> int
    decreases k,
{
    if k == 0 { 1 } else { 10 * pow10((k - 1) as nat) }
}

proof fn lemma_digits_bound(ts: int)
    requires
        decimal(ts).len() == 10,
    ensures
        -10_000_000_000 < ts < 10_000_000_000,
{
    reveal_with_fuel(pow10, 11);
    if ts < 0 {
        lemma_nat_digits_bound((-ts) as nat, 9);
    } else {
        lemma_nat_digits_bound(ts as nat, 10);
    }
}

} // verus!
