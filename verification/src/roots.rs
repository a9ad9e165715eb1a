//! Whole roots, as double-precision arithmetic gives them.
//!
//! A double-precision number has 53 significant bits. A whole number is rounded
//! to such a number before its root is taken, and the root is rounded again
//! before its fraction is dropped. Every step is stated over the integers.
use vstd::prelude::*;

verus! {

// ---------------------------------------------------------------------------
// Exact roots
// ---------------------------------------------------------------------------

/// `r` is the whole root of `value`: the largest number whose square does not exceed it.
pub open spec fn is_isqrt(value: int, r: int) -> bool {
    r >= 0 && r * r <= value < (r + 1) * (r + 1)
}

/// The whole root of `value`.
pub open spec fn isqrt(value: int) -> int {
    choose|r: int| is_isqrt(value, r)
}

/// Two whole roots of one value are equal.
pub proof fn lemma_isqrt_unique(value: int, a: int, b: int)
    requires
        is_isqrt(value, a),
        is_isqrt(value, b),
    ensures
        a == b,
{
    if a < b {
        assert((a + 1) * (a + 1) <= b * b) by (nonlinear_arith)
            requires
                0 <= a < b,
        ;
    } else if b < a {
        assert((b + 1) * (b + 1) <= a * a) by (nonlinear_arith)
            requires
                0 <= b < a,
        ;
    }
}

/// Every value from zero up has a whole root.
pub proof fn lemma_isqrt(value: int)
    requires
        value >= 0,
    ensures
        is_isqrt(value, isqrt(value)),
    decreases value,
{
    if value == 0 {
        assert(is_isqrt(0, 0));
    } else {
        lemma_isqrt(value - 1);
        let r = isqrt(value - 1);
        assert((r + 1) * (r + 1) < (r + 2) * (r + 2)) by (nonlinear_arith)
            requires
                r >= 0,
        ;
        if value < (r + 1) * (r + 1) {
            assert(is_isqrt(value, r));
        } else {
            assert(is_isqrt(value, r + 1));
        }
    }
}

// ---------------------------------------------------------------------------
// Rounding
// ---------------------------------------------------------------------------

/// Whole numbers below this one, 2 to the 53rd, are double-precision numbers.
pub const EXACT_BELOW: u64 = 0x20_0000_0000_0000;

/// Number of double-precision numbers from one power of two to the next, 2 to the 52nd.
pub const PER_BINADE: u64 = 0x10_0000_0000_0000;

/// The largest power of two that is at most `n`; 1 where there is none.
pub open spec fn binade(n: int) -> int
    decreases n,
{
    if n < 2 {
        1
    } else {
        2 * binade(n / 2)
    }
}

/// The double-precision number nearest to `value`; of two that are equally
/// near, the one whose significand is even.
pub open spec fn nearest_double(value: int) -> int {
    if value < EXACT_BELOW {
        value
    } else {
        let unit = binade(value) / PER_BINADE as int;
        let significand = value / unit;
        let rest = value % unit;
        if 2 * rest < unit || (2 * rest == unit && significand % 2 == 0) {
            significand * unit
        } else {
            (significand + 1) * unit
        }
    }
}

/// The root of `value`, which lies between `r` and `r + 1`, is nearer to
/// `r + 1` than to the double-precision number below `r + 1`.
pub open spec fn root_rounds_up(value: int, r: int) -> bool {
    let per_unit = PER_BINADE as int / binade(r);
    (2 * per_unit * (r + 1) - 1) * (2 * per_unit * (r + 1) - 1) < value * (2 * per_unit) * (2
        * per_unit)
}

/// Whole part of the double-precision root of a double-precision number.
pub open spec fn double_root(value: int) -> int {
    if root_rounds_up(value, isqrt(value)) {
        isqrt(value) + 1
    } else {
        isqrt(value)
    }
}

/// Whole part of the double-precision root of a whole number.
pub open spec fn floor_root(value: int) -> int {
    double_root(nearest_double(value))
}

/// A number lies between its power of two and twice that.
pub proof fn lemma_binade(n: int)
    requires
        n >= 0,
    ensures
        1 <= binade(n),
        n >= 1 ==> binade(n) <= n,
        n < 2 * binade(n),
    decreases n,
{
    if n >= 2 {
        lemma_binade(n / 2);
    }
}

/// Rounding up without fractions: what is missing to the next square, times
/// the numbers in one unit, is less than the next root.
proof fn lemma_rounds_up(value: int, r: int, per_unit: int)
    requires
        r >= 0,
        per_unit == PER_BINADE as int / binade(r),
        per_unit >= 1,
    ensures
        root_rounds_up(value, r) <==> ((r + 1) * (r + 1) - value) * per_unit < r + 1,
{
    let s = per_unit;
    let a = r + 1;
    let d = a * a - value;
    assert((2 * s * a - 1) * (2 * s * a - 1) == 4 * (s * a) * (s * a) - 4 * (s * a) + 1)
        by (nonlinear_arith);
    assert(value * (2 * s) * (2 * s) == 4 * (s * a) * (s * a) - 4 * (s * (d * s)))
        by (nonlinear_arith)
        requires
            value == a * a - d,
    ;
    assert(s * a - s * (d * s) == s * (a - d * s)) by (nonlinear_arith);
    let slack = a - d * s;
    assert(4 * (s * slack) > 1 <==> slack >= 1) by (nonlinear_arith)
        requires
            s >= 1,
    ;
}

/// Below 2 to the 52nd rounding changes nothing: the root is the exact one.
pub proof fn lemma_floor_root_is_exact(value: int)
    requires
        0 <= value < PER_BINADE,
    ensures
        floor_root(value) == isqrt(value),
        is_isqrt(value, floor_root(value)),
{
    lemma_isqrt(value);
    let r = isqrt(value);
    assert(r < 0x400_0000) by (nonlinear_arith)
        requires
            r >= 0,
            r * r <= value,
            value < 0x10_0000_0000_0000,
    ;
    lemma_binade(r);
    let b = binade(r);
    let per_unit = PER_BINADE as int / b;
    assert(per_unit >= 0x400_0000) by (nonlinear_arith)
        requires
            1 <= b < 0x400_0000,
            per_unit == 0x10_0000_0000_0000int / b,
    ;
    lemma_rounds_up(value, r, per_unit);
    let d = (r + 1) * (r + 1) - value;
    assert(d * per_unit >= per_unit) by (nonlinear_arith)
        requires
            d >= 1,
            per_unit >= 0,
    ;
}

/// A number is split in units, and one unit more is little.
proof fn lemma_rounded(value: int, unit: int)
    requires
        value >= EXACT_BELOW,
        unit == binade(value) / PER_BINADE as int,
    ensures
        unit >= 1,
        unit * PER_BINADE <= value,
        0 <= (value / unit) * unit <= value,
        (value / unit + 1) * unit <= value + unit,
{
    lemma_binade(value);
    let b = binade(value);
    assert(unit >= 1 && unit * 0x10_0000_0000_0000 <= b) by (nonlinear_arith)
        requires
            unit == b / 0x10_0000_0000_0000int,
            b >= 0x10_0000_0000_0000,
    ;
    vstd::arithmetic::div_mod::lemma_fundamental_div_mod(value, unit);
    assert(unit * (value / unit) == (value / unit) * unit) by (nonlinear_arith);
    assert(0 <= (value / unit) * unit) by (nonlinear_arith)
        requires
            value >= 0,
            unit >= 1,
    ;
    assert((value / unit + 1) * unit == (value / unit) * unit + unit) by (nonlinear_arith);
}

// ---------------------------------------------------------------------------
// Computation
// ---------------------------------------------------------------------------

/// The largest power of two that is at most `n`; 1 where there is none.
fn largest_power(n: u64) -> (r: u64)
    ensures
        r == binade(n as int),
        1 <= r,
        n >= 1 ==> r <= n,
    decreases n,
{
    if n < 2 {
        1
    } else {
        let half: u64 = largest_power(n / 2);
        2 * half
    }
}

/// The double-precision number nearest to `value`.
fn round_to_double(value: u64) -> (r: u128)
    ensures
        r == nearest_double(value as int),
        r <= value + 4096,
{
    if value < EXACT_BELOW {
        return value as u128;
    }
    let power: u64 = largest_power(value);
    proof {
        lemma_rounded(value as int, power as int / PER_BINADE as int);
    }
    let unit: u64 = power / PER_BINADE;
    assert(unit <= 4096);
    let significand: u64 = value / unit;
    let rest: u64 = value % unit;
    let below: u64 = significand * unit;
    if 2 * rest < unit || (2 * rest == unit && significand % 2 == 0) {
        below as u128
    } else {
        assert((significand + 1) * unit == significand * unit + unit) by (nonlinear_arith);
        below as u128 + unit as u128
    }
}

/// Largest whole number whose square does not exceed `value`.
fn whole_root(value: u128) -> (r: u64)
    requires
        value <= 0x1_0000_0000_0000_1000,
    ensures
        is_isqrt(value as int, r as int),
        r == isqrt(value as int),
        r <= 0x1_0000_0000,
{
    let mut lo: u64 = 0;
    let mut hi: u64 = 0x1_0000_0000;
    while lo < hi
        invariant
            lo <= hi <= 0x1_0000_0000,
            lo * lo <= value,
            value < (hi + 1) * (hi + 1),
        decreases hi - lo,
    {
        let mid: u64 = lo + (hi - lo) / 2 + (hi - lo) % 2;
        assert(lo < mid <= hi);
        assert(mid * mid <= 0x1_0000_0000 * 0x1_0000_0000) by (nonlinear_arith)
            requires
                0 <= mid <= 0x1_0000_0000,
        ;
        let square: u128 = mid as u128 * mid as u128;
        if square <= value {
            lo = mid;
        } else {
            hi = mid - 1;
        }
    }
    proof {
        assert(is_isqrt(value as int, lo as int));
        lemma_isqrt_unique(value as int, isqrt(value as int), lo as int);
    }
    lo
}

/// Whole part of the double-precision root of `value`. It is exact below 2 to
/// the 52nd; from there on it may be the next whole number.
pub fn integer_sqrt(value: usize) -> (r: usize)
    ensures
        r == floor_root(value as int),
        value < PER_BINADE ==> is_isqrt(value as int, r as int),
{
    let rounded: u128 = round_to_double(value as u64);
    let root: u64 = whole_root(rounded);
    let power: u64 = largest_power(root);
    let per_unit: u64 = PER_BINADE / power;
    assert(per_unit >= 1) by (nonlinear_arith)
        requires
            1 <= power <= 0x1_0000_0000,
            per_unit == 0x10_0000_0000_0000u64 / power,
    ;
    let next: u128 = root as u128 + 1;
    assert(next * next == root * root + 2 * root + 1) by (nonlinear_arith)
        requires
            next == root + 1,
    ;
    assert(root * root <= 0x1_0000_0000_0000_1000);
    let missing: u128 = next * next - rounded;
    proof {
        lemma_rounds_up(rounded as int, root as int, per_unit as int);
        if value < PER_BINADE {
            lemma_floor_root_is_exact(value as int);
            assert(root <= value) by (nonlinear_arith)
                requires
                    root >= 0,
                    root * root <= value,
            ;
        }
    }
    assert(missing <= 0x2_0000_0001);
    assert(missing * per_unit <= 0x2_0000_0001 * 0x10_0000_0000_0000) by (nonlinear_arith)
        requires
            0 <= missing <= 0x2_0000_0001,
            0 <= per_unit <= 0x10_0000_0000_0000,
    ;
    if missing * (per_unit as u128) < next {
        (root + 1) as usize
    } else {
        root as usize
    }
}

} // verus!
