//! Exact unit conversions: bytes to GiB, milliwatts to watts, mean usage.
use vstd::prelude::*;
use crate::text::{decimal, digit_text, fixed2, push_decimal, push_fixed2};

verus! {

/// Bytes in one gibibyte.
pub const GIB: u64 = 1073741824;

/// `bytes` in GiB, in hundredths, rounded to the nearest with ties to even.
pub open spec fn gib_hundredths(bytes: nat) -> nat {
    let q = bytes * 100 / 1073741824;
    let r = bytes * 100 % 1073741824;
    if r * 2 > 1073741824 || (r * 2 == 1073741824 && q % 2 == 1) {
        q + 1
    } else {
        q
    }
}

/// The text of a byte count in GiB with two decimal places.
pub open spec fn gib_text(bytes: nat) -> Seq<char> {
    fixed2(gib_hundredths(bytes))
}

/// Whole watts in a milliwatt reading, rounded down.
pub open spec fn whole_watts(mw: nat) -> nat {
    mw / 1000
}

/// The shortest decimal text of `mw / 1000` watts: the whole watts, then the
/// thousandths without trailing zeros, and no point when there are none.
pub open spec fn watts_text(mw: nat) -> Seq<char> {
    let f = mw % 1000;
    if f == 0 {
        decimal(mw / 1000)
    } else if f % 100 == 0 {
        decimal(mw / 1000) + "."@ + digit_text(f / 100)
    } else if f % 10 == 0 {
        decimal(mw / 1000) + "."@ + digit_text(f / 100) + digit_text((f / 10) % 10)
    } else {
        decimal(mw / 1000) + "."@ + digit_text(f / 100) + digit_text((f / 10) % 10)
            + digit_text(f % 10)
    }
}

/// The sum of a list of readings.
pub open spec fn sum_of(s: Seq<u64>) -> int
    decreases s.len(),
{
    if s.len() == 0 {
        0
    } else {
        sum_of(s.drop_last()) + s.last()
    }
}

/// The mean of a list of readings rounded down, and zero for an empty list.
pub open spec fn mean_or_zero(s: Seq<u64>) -> int {
    if s.len() == 0 {
        0
    } else {
        sum_of(s) / (s.len() as int)
    }
}

/// `bytes` in GiB, in hundredths, rounded to the nearest with ties to even.
pub fn bytes_to_gib_hundredths(bytes: u64) -> (r: u64)
    ensures
        r == gib_hundredths(bytes as nat),
{
    let scaled: u128 = (bytes as u128) * 100;
    let q: u128 = scaled / (GIB as u128);
    let rem: u128 = scaled % (GIB as u128);
    assert(q <= 18446744073709551615u128 * 100 / 1073741824) by (nonlinear_arith)
        requires
            scaled <= 18446744073709551615u128 * 100,
            q == scaled / 1073741824,
    ;
    if rem * 2 > GIB as u128 || (rem * 2 == GIB as u128 && q % 2 == 1) {
        (q + 1) as u64
    } else {
        q as u64
    }
}

/// A whole number of gibibytes converts exactly, with no rounding; no bytes are
/// no gibibytes.
pub proof fn whole_gibibytes_are_exact(k: nat)
    ensures
        gib_hundredths(k * 1073741824) == 100 * k,
        gib_hundredths(0) == 0,
{
    assert(k * 1073741824 * 100 == (100 * k) * 1073741824) by (nonlinear_arith);
    vstd::arithmetic::div_mod::lemma_div_multiples_vanish((100 * k) as int, 1073741824);
    vstd::arithmetic::div_mod::lemma_mod_multiples_basic((100 * k) as int, 1073741824);
}

/// Whole watts in a milliwatt reading, rounded down.
pub fn milliwatts_to_watts(mw: u32) -> (r: u32)
    ensures
        r == whole_watts(mw as nat),
{
    mw / 1000
}

/// Appends the text of a byte count in GiB with two decimal places.
pub fn push_gib(out: &mut String, bytes: u64)
    ensures
        final(out)@ == old(out)@ + gib_text(bytes as nat),
{
    let h = bytes_to_gib_hundredths(bytes);
    push_fixed2(out, h);
}

/// Appends the shortest decimal text of a milliwatt reading in watts.
pub fn push_watts(out: &mut String, mw: u32)
    ensures
        final(out)@ == old(out)@ + watts_text(mw as nat),
{
    let w = (mw / 1000) as u64;
    let f = (mw % 1000) as u64;
    push_decimal(out, w);
    if f != 0 {
        out.append(".");
        let mut tail = String::new();
        if f % 100 == 0 {
            push_decimal(&mut tail, f / 100);
        } else if f % 10 == 0 {
            push_decimal(&mut tail, f / 100);
            push_decimal(&mut tail, (f / 10) % 10);
        } else {
            push_decimal(&mut tail, f / 100);
            push_decimal(&mut tail, (f / 10) % 10);
            push_decimal(&mut tail, f % 10);
        }
        out.append(tail.as_str());
    }
    assert(final(out)@ =~= old(out)@ + watts_text(mw as nat));
}

/// The mean of per-core usage readings rounded down, or zero when there are none.
pub fn average_usage(per_core: &Vec<u64>) -> (r: u64)
    ensures
        r == mean_or_zero(per_core@),
        per_core@.len() == 0 ==> r == 0,
{
    let n = per_core.len();
    if n == 0 {
        return 0;
    }
    let mut total: u128 = 0;
    let mut i: usize = 0;
    while i < n
        invariant
            n == per_core@.len(),
            i <= n,
            total == sum_of(per_core@.subrange(0, i as int)),
            total <= i * 18446744073709551615u64,
        decreases n - i,
    {
        assert(per_core@.subrange(0, i as int + 1).drop_last() =~= per_core@.subrange(0, i as int));
        total = total + per_core[i] as u128;
        i = i + 1;
    }
    assert(per_core@.subrange(0, n as int) =~= per_core@);
    let mean: u128 = total / (n as u128);
    assert(mean <= 18446744073709551615u64) by (nonlinear_arith)
        requires
            total <= n * 18446744073709551615u64,
            n > 0,
            mean == total / (n as u128),
    ;
    mean as u64
}

} // verus!
