//! Fixed-point scalar arithmetic.
//!
//! Every physical quantity in the control core — coordinates, velocities,
//! gains, probabilities, forces — is a signed 64-bit integer counting
//! thousandths of a unit ([`UNIT`] raw steps make one unit). Products of
//! two scalars are rescaled back with truncating division, rounding
//! toward zero as the machine does.

use vstd::prelude::*;

verus! {

/// Raw steps per unit: quantities are held in thousandths.
pub const UNIT: i64 = 1000;

/// Magnitude bound on every externally supplied scalar (coordinates,
/// gains, velocities). Keeps all intermediate products of the control
/// law inside `i64`.
pub const SCALAR_LIMIT: i64 = 100_000_000;

/// Bound on one control time step (ten seconds in fixed point).
pub const TIME_STEP_LIMIT: i64 = 10_000;

/// Truncating (round-toward-zero) division, as machine division rounds.
pub open spec fn tdiv(a: int, b: int) -> int
    recommends
        b > 0,
{
    if a >= 0 {
        a / b
    } else {
        -((-a) / b)
    }
}

/// Product of two fixed-point scalars, rescaled back into fixed point.
pub open spec fn fix_mul(a: int, b: int) -> int {
    tdiv(a * b, UNIT as int)
}

pub open spec fn abs_spec(a: int) -> int {
    if a >= 0 {
        a
    } else {
        -a
    }
}

pub open spec fn in_scalar_range(a: int) -> bool {
    -SCALAR_LIMIT <= a <= SCALAR_LIMIT
}

pub open spec fn clamp_spec(v: int, lo: int, hi: int) -> int
    recommends
        lo <= hi,
{
    if v < lo {
        lo
    } else if v > hi {
        hi
    } else {
        v
    }
}

/// A product of factors bounded by `ma` and `mb` is bounded by `ma * mb`.
pub proof fn lemma_mul_bound(a: int, b: int, ma: int, mb: int)
    requires
        0 <= ma,
        0 <= mb,
        abs_spec(a) <= ma,
        abs_spec(b) <= mb,
    ensures
        -(ma * mb) <= a * b <= ma * mb,
        abs_spec(a * b) == abs_spec(a) * abs_spec(b),
{
    assert(-(ma * mb) <= a * b <= ma * mb && abs_spec(a * b) == abs_spec(a) * abs_spec(b))
        by (nonlinear_arith)
        requires
            0 <= ma,
            0 <= mb,
            abs_spec(a) <= ma,
            abs_spec(b) <= mb,
    ;
}

/// Truncating division divides the magnitude: `|tdiv(a, b)| == |a| / b`.
pub proof fn lemma_tdiv_abs(a: int, b: int)
    requires
        b >= 1,
    ensures
        abs_spec(tdiv(a, b)) == abs_spec(a) / b,
        abs_spec(tdiv(a, b)) <= abs_spec(a),
{
    assert(abs_spec(a) / b >= 0 && abs_spec(a) / b <= abs_spec(a)) by (nonlinear_arith)
        requires
            b >= 1,
            abs_spec(a) >= 0,
    ;
}

/// A fixed-point product of factors bounded by `ma` and `mb` is
/// bounded by `ma * mb / UNIT`.
pub proof fn lemma_fix_mul_bound(a: int, b: int, ma: int, mb: int)
    requires
        0 <= ma,
        0 <= mb,
        abs_spec(a) <= ma,
        abs_spec(b) <= mb,
    ensures
        abs_spec(fix_mul(a, b)) <= ma * mb / (UNIT as int),
{
    lemma_mul_bound(a, b, ma, mb);
    lemma_tdiv_abs(a * b, UNIT as int);
    assert(abs_spec(a * b) / (UNIT as int) <= ma * mb / (UNIT as int)) by (nonlinear_arith)
        requires
            0 <= abs_spec(a * b) <= ma * mb,
    ;
}

/// Fixed-point multiply of any factors whose product fits the machine
/// word. Truncates toward zero.
pub fn fixmul(a: i64, b: i64) -> (r: i64)
    requires
        abs_spec(a as int) * abs_spec(b as int) <= i64::MAX,
    ensures
        r == fix_mul(a as int, b as int),
{
    proof {
        lemma_mul_bound(a as int, b as int, abs_spec(a as int), abs_spec(b as int));
    }
    let p: i64 = a * b;
    proof {
        lemma_tdiv_abs(p as int, UNIT as int);
    }
    p / UNIT
}

/// Magnitude of a scalar.
pub fn abs64(a: i64) -> (r: i64)
    requires
        a != i64::MIN,
    ensures
        r == abs_spec(a as int),
{
    if a >= 0 {
        a
    } else {
        -a
    }
}

/// Clamp a scalar into a closed interval.
pub fn clamp64(v: i64, lo: i64, hi: i64) -> (r: i64)
    requires
        lo <= hi,
    ensures
        r == clamp_spec(v as int, lo as int, hi as int),
{
    if v < lo {
        lo
    } else if v > hi {
        hi
    } else {
        v
    }
}

/// `r` is the floor of the square root of `n`.
pub open spec fn is_sqrt_floor(n: int, r: int) -> bool {
    0 <= r && r * r <= n && n < (r + 1) * (r + 1)
}

/// The floor of the square root of a nonnegative number.
pub open spec fn sqrt_floor(n: int) -> int {
    choose|r: int| is_sqrt_floor(n, r)
}

/// `sqrt_floor` really is the floor of the square root: such a root
/// exists for every nonnegative `n`, and only one number satisfies the
/// bounds.
pub proof fn lemma_sqrt_floor(n: int)
    requires
        0 <= n,
    ensures
        is_sqrt_floor(n, sqrt_floor(n)),
        forall|r: int| is_sqrt_floor(n, r) ==> r == sqrt_floor(n),
    decreases n,
{
    if n == 0 {
        assert(is_sqrt_floor(0, 0));
    } else {
        lemma_sqrt_floor(n - 1);
        let r0 = sqrt_floor(n - 1);
        if (r0 + 1) * (r0 + 1) <= n {
            assert(is_sqrt_floor(n, r0 + 1)) by (nonlinear_arith)
                requires
                    is_sqrt_floor(n - 1, r0),
                    (r0 + 1) * (r0 + 1) <= n,
            ;
        } else {
            assert(is_sqrt_floor(n, r0));
        }
    }
    assert forall|r: int| is_sqrt_floor(n, r) implies r == sqrt_floor(n) by {
        assert(is_sqrt_floor(n, sqrt_floor(n)));
        assert(r == sqrt_floor(n)) by (nonlinear_arith)
            requires
                is_sqrt_floor(n, r),
                is_sqrt_floor(n, sqrt_floor(n)),
        ;
    }
}

/// Integer square root, rounded down.
pub fn isqrt(n: i64) -> (r: i64)
    requires
        0 <= n,
    ensures
        is_sqrt_floor(n as int, r as int),
        r == sqrt_floor(n as int),
{
    let mut lo: i64 = 0;
    let mut hi: i64 = 3_037_000_499;
    while lo < hi
        invariant
            0 <= lo <= hi <= 3_037_000_499,
            lo * lo <= n,
            n < (hi + 1) * (hi + 1),
        decreases hi - lo,
    {
        let mid: i64 = lo + (hi - lo + 1) / 2;
        proof {
            lemma_mul_bound(mid as int, mid as int, 3_037_000_499, 3_037_000_499);
        }
        if mid * mid <= n {
            lo = mid;
        } else {
            hi = mid - 1;
        }
    }
    proof {
        lemma_sqrt_floor(n as int);
    }
    lo
}

} // verus!
