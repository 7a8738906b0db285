//! Splitting an uptime in seconds into days, hours, minutes and seconds.
use vstd::prelude::*;
use vstd::arithmetic::div_mod::{lemma_div_denominator, lemma_fundamental_div_mod};

verus! {

pub const SECONDS_PER_MINUTE: u64 = 60;

pub const SECONDS_PER_HOUR: u64 = 3600;

pub const SECONDS_PER_DAY: u64 = 86400;

/// The whole number of seconds that a (days, hours, minutes, seconds) tuple stands for.
pub open spec fn total_seconds(t: (u64, u64, u64, u64)) -> int {
    t.0 * 86400 + t.1 * 3600 + t.2 * 60 + t.3
}

/// A tuple in normal form: hours, minutes and seconds below their carry points.
pub open spec fn is_normalized(t: (u64, u64, u64, u64)) -> bool {
    t.1 < 24 && t.2 < 60 && t.3 < 60
}

/// Splits `seconds` into whole days, then hours, minutes and seconds of the day.
pub fn convert_seconds(seconds: u64) -> (r: (u64, u64, u64, u64))
    ensures
        r.0 == seconds / 86400,
        r.1 == (seconds / 3600) % 24,
        r.2 == (seconds / 60) % 60,
        r.3 == seconds % 60,
        total_seconds(r) == seconds,
        is_normalized(r),
{
    let days = seconds / SECONDS_PER_DAY;
    let hours = (seconds / SECONDS_PER_HOUR) % 24;
    let minutes = (seconds / SECONDS_PER_MINUTE) % 60;
    let remaining_seconds = seconds % SECONDS_PER_MINUTE;
    proof {
        lemma_split_recombines(seconds as int);
    }
    (days, hours, minutes, remaining_seconds)
}

proof fn lemma_split_recombines(s: int)
    requires
        s >= 0,
    ensures
        (s / 86400) * 86400 + ((s / 3600) % 24) * 3600 + ((s / 60) % 60) * 60 + s % 60 == s,
{
    let m = s / 60;
    let h = m / 60;
    lemma_div_denominator(s, 60, 60);
    lemma_div_denominator(s, 3600, 24);
    assert(s / 3600 == h);
    assert(s / 86400 == h / 24) by {
        lemma_div_denominator(s, 3600, 24);
    }
    lemma_fundamental_div_mod(s, 60);
    lemma_fundamental_div_mod(m, 60);
    lemma_fundamental_div_mod(h, 24);
    assert(s == 60 * m + s % 60);
    assert(m == 60 * h + m % 60);
    assert(h == 24 * (h / 24) + h % 24);
    assert((h / 24) * 86400 + (h % 24) * 3600 == 3600 * h) by (nonlinear_arith)
        requires h == 24 * (h / 24) + h % 24;
    assert(3600 * h + (m % 60) * 60 == 60 * m) by (nonlinear_arith)
        requires m == 60 * h + m % 60;
}

/// Decomposing any uptime and adding the parts back up gives the uptime again,
/// and every part below days stays under its carry point.
pub proof fn convert_seconds_is_exact(s: u64, r: (u64, u64, u64, u64))
    requires
        r.0 == s / 86400,
        r.1 == (s / 3600) % 24,
        r.2 == (s / 60) % 60,
        r.3 == s % 60,
    ensures
        total_seconds(r) == s,
        is_normalized(r),
{
    lemma_split_recombines(s as int);
}

} // verus!
