//! Integer helpers shared by the rate logic.

use vstd::prelude::*;

verus! {

/// Division that rounds toward zero, the way machine integers divide.
pub open spec fn trunc_div(a: int, b: int) -> int {
    if a >= 0 {
        a / b
    } else {
        -((-a) / b)
    }
}

/// The smaller of two rates.
#[verifier::allow_in_spec]
pub fn lower(a: u32, b: u32) -> u32
    returns
        (if a <= b {
            a
        } else {
            b
        }),
{
    if a <= b {
        a
    } else {
        b
    }
}

/// The larger of two rates.
#[verifier::allow_in_spec]
pub fn higher(a: u32, b: u32) -> u32
    returns
        (if a >= b {
            a
        } else {
            b
        }),
{
    if a >= b {
        a
    } else {
        b
    }
}

/// `kbps`, no further than an optional bound.
#[verifier::allow_in_spec]
pub fn bounded(kbps: u32, bound: Option<u32>) -> u32
    returns
        (match bound {
            Some(b) => lower(kbps, b),
            None => kbps,
        }),
{
    match bound {
        Some(b) => lower(kbps, b),
        None => kbps,
    }
}

/// One more on a counter that stays at its maximum.
#[verifier::allow_in_spec]
pub fn counted(n: u32) -> u32
    returns
        (if n == u32::MAX {
            n
        } else {
            (n + 1) as u32
        }),
{
    if n == u32::MAX {
        n
    } else {
        n + 1
    }
}

/// One less on a counter that stays at zero.
#[verifier::allow_in_spec]
pub fn spent(n: u32) -> u32
    returns
        (if n == 0 {
            n
        } else {
            (n - 1) as u32
        }),
{
    if n == 0 {
        n
    } else {
        n - 1
    }
}

/// The sum of two totals, held at the type's maximum.
#[verifier::allow_in_spec]
pub fn total(a: u64, b: u64) -> u64
    returns
        (if a + b > u64::MAX {
            u64::MAX
        } else {
            (a + b) as u64
        }),
{
    if a > u64::MAX - b {
        u64::MAX
    } else {
        a + b
    }
}

/// The product of two totals, held at the type's maximum.
#[verifier::allow_in_spec]
pub fn scaled(a: u64, b: u64) -> u64
    returns
        (if a * b > u64::MAX {
            u64::MAX
        } else {
            (a * b) as u64
        }),
{
    assert(0 <= a * b <= 0xffff_ffff_ffff_ffff * 0xffff_ffff_ffff_ffff) by (nonlinear_arith)
        requires
            a <= 0xffff_ffff_ffff_ffffu64,
            b <= 0xffff_ffff_ffff_ffffu64,
    ;
    let wide: u128 = (a as u128) * (b as u128);
    if wide > u64::MAX as u128 {
        u64::MAX
    } else {
        wide as u64
    }
}

/// A rate multiplied, held at the type's maximum.
#[verifier::allow_in_spec]
pub fn times(kbps: u32, n: u32) -> u32
    returns
        (if kbps * n > u32::MAX {
            u32::MAX
        } else {
            (kbps * n) as u32
        }),
{
    let wide: u64 = product(kbps, n);
    if wide > u32::MAX as u64 {
        u32::MAX
    } else {
        wide as u32
    }
}

/// How far apart two rates are.
#[verifier::allow_in_spec]
pub fn apart(a: u32, b: u32) -> u32
    returns
        (if a >= b {
            (a - b) as u32
        } else {
            (b - a) as u32
        }),
{
    if a >= b {
        a - b
    } else {
        b - a
    }
}

/// Two rates multiplied, in a width that always holds the product.
pub fn product(a: u32, b: u32) -> (r: u64)
    ensures
        r == a * b,
{
    assert(a * b <= 0xffff_ffff * 0xffff_ffff) by (nonlinear_arith)
        requires
            a <= 0xffff_ffffu32,
            b <= 0xffff_ffffu32,
    ;
    (a as u64) * (b as u64)
}

/// `kbps * pct / 100`, for a share of at most the whole.
#[verifier::allow_in_spec]
pub fn share(kbps: u32, pct: u32) -> u32
    requires
        pct <= 100,
    returns
        (kbps * pct / 100) as u32,
{
    let scaled: u64 = product(kbps, pct);
    assert(kbps * pct / 100 <= kbps) by (nonlinear_arith)
        requires
            pct <= 100,
    ;
    (scaled / 100) as u32
}

/// The sum of two durations, held at the ends of the type's range.
pub open spec fn clipped_sum(a: i64, b: i64) -> i64 {
    if a + b > i64::MAX {
        i64::MAX
    } else if a + b < i64::MIN {
        i64::MIN
    } else {
        (a + b) as i64
    }
}

#[verifier::when_used_as_spec(clipped_sum)]
pub fn plus(a: i64, b: i64) -> (r: i64)
    ensures
        r == clipped_sum(a, b),
{
    let sum: i128 = a as i128 + b as i128;
    if sum > i64::MAX as i128 {
        i64::MAX
    } else if sum < i64::MIN as i128 {
        i64::MIN
    } else {
        sum as i64
    }
}

/// The mean of a sum of durations over a positive count.
#[verifier::allow_in_spec]
pub fn mean(sum_us: i64, n: u32) -> i64
    requires
        n > 0,
    returns
        trunc_div(sum_us as int, n as int) as i64,
{
    proof {
        lemma_trunc_div_in_range(sum_us, n as int);
    }
    sum_us / (n as i64)
}

proof fn lemma_trunc_div_in_range(a: i64, b: int)
    requires
        b > 0,
    ensures
        i64::MIN <= trunc_div(a as int, b) <= i64::MAX,
{
    let m: int = if a >= 0 {
        a as int
    } else {
        -(a as int)
    };
    assert(0 <= m / b <= m) by (nonlinear_arith)
        requires
            b > 0,
            m >= 0,
    ;
}

/// The bounds of two rates are two of them: neither is made up, and each is on
/// its side of both.
pub proof fn law_bounds_are_among_what_they_bound(a: u32, b: u32, bound: Option<u32>)
    ensures
        lower(a, b) == a || lower(a, b) == b,
        lower(a, b) <= a && lower(a, b) <= b,
        higher(a, b) == a || higher(a, b) == b,
        higher(a, b) >= a && higher(a, b) >= b,
        lower(a, b) + higher(a, b) == a + b,
        bounded(a, bound) <= a,
        bound is None ==> bounded(a, bound) == a,
        bound matches Some(b) ==> bounded(a, bound) <= b && (a <= b ==> bounded(a, bound) == a) && (
        b <= a ==> bounded(a, bound) == b),
{
}

/// Counters move by one and stop at their ends; totals add and multiply, and
/// stop at the largest number there is.
pub proof fn law_counters_stop_at_their_ends(n: u32, m: u32, a: u64, b: u64)
    ensures
        n < u32::MAX ==> counted(n) == n + 1,
        counted(u32::MAX) == u32::MAX,
        n > 0 ==> spent(n) + 1 == n,
        spent(0) == 0,
        a + b <= u64::MAX ==> total(a, b) == a + b,
        a + b > u64::MAX ==> total(a, b) == u64::MAX,
        a * b <= u64::MAX ==> scaled(a, b) == a * b,
        a * b > u64::MAX ==> scaled(a, b) == u64::MAX,
        n * m <= u32::MAX ==> times(n, m) == n * m,
        n * m > u32::MAX ==> times(n, m) == u32::MAX,
{
}

/// The distance of two rates is the same from either end, and leads from the
/// lower to the higher.
pub proof fn law_a_distance_leads_from_one_to_the_other(a: u32, b: u32)
    ensures
        apart(a, b) == apart(b, a),
        a <= b ==> a + apart(a, b) == b,
{
}

/// A share of a rate is so many hundredths of it, rounded down.
pub proof fn law_a_share_is_hundredths(kbps: u32, pct: u32)
    requires
        pct <= 100,
    ensures
        share(kbps, pct) * 100 <= kbps * pct,
        kbps * pct < share(kbps, pct) * 100 + 100,
        share(kbps, pct) <= kbps,
{
    assert(0 <= kbps * pct / 100 <= kbps) by (nonlinear_arith)
        requires
            pct <= 100,
            kbps >= 0,
            pct >= 0,
    ;
}

/// Division rounds toward zero, alike on both sides of it: what is left over
/// is smaller than the divisor and has the sign of what was divided.
pub proof fn law_division_rounds_toward_zero(a: int, b: int)
    requires
        b > 0,
    ensures
        trunc_div(-a, b) == -trunc_div(a, b),
        a >= 0 ==> 0 <= a - trunc_div(a, b) * b < b,
        a <= 0 ==> -b < a - trunc_div(a, b) * b <= 0,
{
    let m: int = if a >= 0 {
        a
    } else {
        -a
    };
    vstd::arithmetic::div_mod::lemma_fundamental_div_mod(m, b);
    vstd::arithmetic::div_mod::lemma_mod_bound(m, b);
    let q = m / b;
    assert(b * q == q * b && (-q) * b == -(q * b)) by (nonlinear_arith);
    if a == 0 {
        assert(0int / b == 0) by (nonlinear_arith)
            requires
                b > 0,
        ;
    }
}

/// Sums of durations are sums wherever the type holds them, and stop at its
/// ends.
pub proof fn law_durations_add(a: i64, b: i64)
    ensures
        i64::MIN <= a + b <= i64::MAX ==> plus(a, b) == a + b,
        a + b > i64::MAX ==> plus(a, b) == i64::MAX,
        a + b < i64::MIN ==> plus(a, b) == i64::MIN,
{
}

} // verus!
