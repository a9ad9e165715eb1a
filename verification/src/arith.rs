//! Machine arithmetic shared by the planning code: saturating products,
//! bounds, and rounding division, each tied to its value over the integers.
use vstd::arithmetic::div_mod::{lemma_div_is_ordered, lemma_fundamental_div_mod};
use vstd::prelude::*;

verus! {

/// The value of `x` after saturation at the largest `usize`.
pub open spec fn sat(x: int) -> int {
    if x > usize::MAX {
        usize::MAX as int
    } else {
        x
    }
}

/// The larger of two integers.
pub open spec fn imax(a: int, b: int) -> int {
    if a >= b {
        a
    } else {
        b
    }
}

/// The smaller of two integers.
pub open spec fn imin(a: int, b: int) -> int {
    if a <= b {
        a
    } else {
        b
    }
}

/// Number of chunks of `chunk` items that cover `total` items.
pub open spec fn ceil_div(total: int, chunk: int) -> int
    recommends
        total >= 0,
        chunk > 0,
{
    (total + chunk - 1) / chunk
}

/// Product of two `usize` values, saturating at `usize::MAX`.
pub fn saturating_mul(a: usize, b: usize) -> (r: usize)
    ensures
        r == sat(a * b),
{
    match a.checked_mul(b) {
        Some(v) => v,
        None => usize::MAX,
    }
}

/// Sum of two `usize` values, saturating at `usize::MAX`.
pub fn saturating_add(a: usize, b: usize) -> (r: usize)
    ensures
        r == sat(a + b),
{
    match a.checked_add(b) {
        Some(v) => v,
        None => usize::MAX,
    }
}

/// The larger of two `usize` values.
pub fn max_usize(a: usize, b: usize) -> (r: usize)
    ensures
        r == imax(a as int, b as int),
{
    if a >= b {
        a
    } else {
        b
    }
}

/// The smaller of two `usize` values.
pub fn min_usize(a: usize, b: usize) -> (r: usize)
    ensures
        r == imin(a as int, b as int),
{
    if a <= b {
        a
    } else {
        b
    }
}

/// Quotient of `a` by `b`, rounded up.
pub fn div_ceil(a: usize, b: usize) -> (r: usize)
    requires
        b > 0,
    ensures
        r == ceil_div(a as int, b as int),
{
    let q: usize = a / b;
    proof {
        lemma_ceil_div(a as int, b as int);
    }
    if a % b == 0 {
        q
    } else {
        assert(q < a) by (nonlinear_arith)
            requires
                b > 0,
                a % b != 0,
                q == a / b,
        ;
        q + 1
    }
}

/// A rounded-up quotient is the plain quotient, plus one when a remainder is left.
pub proof fn lemma_ceil_div(total: int, chunk: int)
    requires
        total >= 0,
        chunk > 0,
    ensures
        ceil_div(total, chunk) == total / chunk + (if total % chunk == 0 {
            0int
        } else {
            1int
        }),
        0 <= ceil_div(total, chunk),
        (ceil_div(total, chunk) - 1) * chunk < total || total == 0,
        total <= ceil_div(total, chunk) * chunk,
        total > 0 ==> ceil_div(total, chunk) > 0,
        ceil_div(total, chunk) <= total,
{
    let q = total / chunk;
    let r = total % chunk;
    lemma_fundamental_div_mod(total, chunk);
    assert(0 <= r < chunk) by (nonlinear_arith)
        requires
            r == total % chunk,
            chunk > 0,
    ;
    assert(0 <= q) by (nonlinear_arith)
        requires
            q == total / chunk,
            total >= 0,
            chunk > 0,
    ;
    if r == 0 {
        assert((q * chunk + (chunk - 1)) / chunk == q) by (nonlinear_arith)
            requires
                chunk > 0,
        ;
        assert(total == q * chunk) by (nonlinear_arith)
            requires
                total == chunk * q + r,
                r == 0,
        ;
        assert((q - 1) * chunk == q * chunk - chunk) by (nonlinear_arith);
        if q == 0 {
            assert(q * chunk == 0) by (nonlinear_arith)
                requires
                    q == 0,
            ;
        }
        assert(q <= q * chunk) by (nonlinear_arith)
            requires
                q >= 0,
                chunk > 0,
        ;
    } else {
        assert(total + chunk - 1 == (q + 1) * chunk + (r - 1)) by (nonlinear_arith)
            requires
                total == chunk * q + r,
        ;
        assert(((q + 1) * chunk + (r - 1)) / chunk == q + 1) by (nonlinear_arith)
            requires
                chunk > 0,
                0 <= r - 1 < chunk,
        ;
        assert((q + 1) * chunk >= total) by (nonlinear_arith)
            requires
                total == chunk * q + r,
                r < chunk,
        ;
        assert(((q + 1) - 1) * chunk < total) by (nonlinear_arith)
            requires
                total == chunk * q + r,
                r > 0,
        ;
        assert(q + 1 <= chunk * q + r) by (nonlinear_arith)
            requires
                q >= 0,
                chunk > 0,
                r >= 1,
        ;
    }
}

/// Saturating an intermediate product does not change a saturated product.
pub proof fn lemma_sat_mul(x: int, y: int)
    requires
        x >= 0,
        y >= 0,
    ensures
        sat(sat(x) * y) == sat(x * y),
        sat(x) >= 0,
        x * y >= 0,
{
    assert(x * y >= 0) by (nonlinear_arith)
        requires
            x >= 0,
            y >= 0,
    ;
    if x > usize::MAX {
        let m = usize::MAX as int;
        if y == 0 {
            assert(m * y == 0 && x * y == 0) by (nonlinear_arith)
                requires
                    y == 0,
            ;
        } else {
            assert(m * y >= m && x * y > m) by (nonlinear_arith)
                requires
                    y >= 1,
                    x > m,
                    m >= 0,
            ;
        }
    }
}

/// Two factors stay within a limit when one is at most the limit divided by the other.
pub proof fn lemma_mul_within_quotient(a: int, b: int, limit: int)
    requires
        a > 0,
        b >= 0,
        limit >= 0,
        b <= limit / a,
    ensures
        a * b <= limit,
{
    lemma_fundamental_div_mod(limit, a);
    assert(a * b <= limit) by (nonlinear_arith)
        requires
            a > 0,
            b <= limit / a,
            limit == a * (limit / a) + limit % a,
            limit % a >= 0,
    ;
}

/// Dividing by a larger divisor gives no larger quotient.
pub proof fn lemma_quotient_at_most(limit: int, divisor: int)
    requires
        limit >= 0,
        divisor >= 1,
    ensures
        0 <= limit / divisor <= limit,
{
    lemma_div_is_ordered(0, limit, divisor);
    assert(limit / divisor <= limit) by (nonlinear_arith)
        requires
            limit >= 0,
            divisor >= 1,
    ;
    assert(0 <= limit / divisor) by (nonlinear_arith)
        requires
            limit >= 0,
            divisor >= 1,
    ;
}

} // verus!
