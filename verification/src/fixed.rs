//! Fixed-point arithmetic: quantities in thousandths, division that rounds
//! toward zero, and sums held to a range.

use vstd::prelude::*;
use crate::spec_limit;

verus! {

/// One whole unit, in the thousandths that quantities are kept in.
pub const UNIT: i64 = 1000;

/// The quotient of `n` by `d`, rounded toward zero. Meaningful for `d != 0`.
pub open spec fn quotient(n: int, d: int) -> int {
    if n >= 0 {
        n / d
    } else {
        -((-n) / d)
    }
}

/// What is left of `n` once `quotient(n, d)` times `d` is taken from it.
pub open spec fn remainder(n: int, d: int) -> int {
    n - quotient(n, d) * d
}

/// `quotient` rounds toward zero: what it leaves over is smaller in
/// magnitude than the divisor and never of the opposite sign to `n`.
pub proof fn lemma_quotient_rounds_toward_zero(n: int, d: int)
    requires
        d != 0,
    ensures
        n >= 0 ==> 0 <= remainder(n, d),
        n <= 0 ==> remainder(n, d) <= 0,
        d > 0 ==> -d < remainder(n, d) < d,
        d < 0 ==> d < remainder(n, d) < -d,
        n >= 0 ==> -n <= quotient(n, d) <= n,
        n <= 0 ==> n <= quotient(n, d) <= -n,
{
    let m = if n >= 0 { n } else { -n };
    assert(m == (m / d) * d + m % d && 0 <= m % d && (d > 0 ==> m % d < d) && (d < 0 ==> m % d
        < -d) && -m <= m / d <= m) by (nonlinear_arith)
        requires
            d != 0,
            m >= 0,
    ;
    assert((-(m / d)) * d == -((m / d) * d)) by (nonlinear_arith);
}

/// The ratio of `n` to `d` in thousandths, rounded toward zero. Meaningful
/// for `d != 0`.
pub open spec fn spec_ratio(n: int, d: int) -> int {
    quotient(n * UNIT, d)
}

/// The largest magnitude that [`ratio`] takes as a numerator.
pub const RATIO_RANGE: i128 = 0x1_0000_0000_0000_0000_0000;

/// The ratio of `n` to `d`, in thousandths, rounded toward zero.
pub fn ratio(n: i128, d: i128) -> (r: i128)
    requires
        d != 0,
        -RATIO_RANGE <= n <= RATIO_RANGE,
    ensures
        r == spec_ratio(n as int, d as int),
        n >= 0 ==> -(n * UNIT) <= r <= n * UNIT,
        n <= 0 ==> n * UNIT <= r <= -(n * UNIT),
{
    proof {
        lemma_quotient_rounds_toward_zero(n * 1000, d as int);
    }
    (n * 1000) / d
}

/// The sum of `a` and `b`, held to the closed interval from `min` to `max`.
pub fn limited_sum(min: i64, max: i64, a: i64, b: i64) -> (r: i64)
    requires
        min <= max,
    ensures
        r == spec_limit(min as int, max as int, a + b),
{
    let sum: i128 = a as i128 + b as i128;
    if sum < min as i128 {
        min
    } else if sum > max as i128 {
        max
    } else {
        sum as i64
    }
}

} // verus!
