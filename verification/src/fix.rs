//! Saturating fixed-point arithmetic used throughout the core.
//!
//! Every quantity in the library is an `i64` holding a fixed-point value:
//! `TIME_SCALE` units make one beat of a clock, `POS_SCALE` units make one
//! pixel of world space. All operations are total: intermediate products are
//! taken in `i128` and results are clamped into the `i64` range, so no
//! operation here can overflow or panic.
use vstd::prelude::*;

verus! {

/// Number of fixed-point units in one beat of a clock.
pub const TIME_SCALE: i64 = 1000;

/// Number of fixed-point units in one pixel of world space.
pub const POS_SCALE: i64 = 1000;

/// Truncating (round-toward-zero) quotient, the rounding that integer
/// division of machine integers performs.
pub open spec fn tdiv(a: int, d: int) -> int
    recommends
        d > 0,
{
    if a >= 0 {
        a / d
    } else {
        -((-a) / d)
    }
}

/// Clamp an unbounded integer into the range of `i64`.
pub open spec fn sat64(x: int) -> int {
    if x > i64::MAX {
        i64::MAX as int
    } else if x < i64::MIN {
        i64::MIN as int
    } else {
        x
    }
}

/// Saturating sum, at the specification level.
pub open spec fn sadd(a: i64, b: i64) -> i64 {
    sat64(a as int + b as int) as i64
}

/// Saturating difference, at the specification level.
pub open spec fn ssub(a: i64, b: i64) -> i64 {
    sat64(a as int - b as int) as i64
}

/// Saturating product, at the specification level.
pub open spec fn smul(a: i64, b: i64) -> i64 {
    sat64(a as int * b as int) as i64
}

/// Saturating truncated `a * b / d`, at the specification level.
pub open spec fn smuldiv(a: i64, b: i64, d: i64) -> i64 {
    sat64(tdiv(a as int * b as int, d as int)) as i64
}

/// The value itself if nonnegative, else zero.
pub open spec fn clamp0(x: i64) -> i64 {
    if x >= 0 {
        x
    } else {
        0
    }
}

/// Saturating sum.
pub fn sat_add(a: i64, b: i64) -> (r: i64)
    ensures
        r as int == sat64(a as int + b as int),
        r == sadd(a, b),
{
    let s: i128 = a as i128 + b as i128;
    if s > i64::MAX as i128 {
        i64::MAX
    } else if s < i64::MIN as i128 {
        i64::MIN
    } else {
        s as i64
    }
}

/// Saturating difference.
pub fn sat_sub(a: i64, b: i64) -> (r: i64)
    ensures
        r as int == sat64(a as int - b as int),
        r == ssub(a, b),
{
    let s: i128 = a as i128 - b as i128;
    if s > i64::MAX as i128 {
        i64::MAX
    } else if s < i64::MIN as i128 {
        i64::MIN
    } else {
        s as i64
    }
}

/// `a * b / d` with the product taken exactly, the quotient truncated toward
/// zero, and the result saturated into `i64`.
pub fn mul_div(a: i64, b: i64, d: i64) -> (r: i64)
    requires
        d > 0,
    ensures
        r as int == sat64(tdiv(a as int * b as int, d as int)),
        r == smuldiv(a, b, d),
{
    proof {
        assert((a as int) * (b as int) <= 0x8000000000000000 * 0x8000000000000000
            && (a as int) * (b as int) >= -(0x8000000000000000 * 0x8000000000000000))
            by (nonlinear_arith)
            requires
                -0x8000000000000000 <= a as int <= 0x7fffffffffffffff,
                -0x8000000000000000 <= b as int <= 0x7fffffffffffffff;
    }
    let p: i128 = (a as i128) * (b as i128);
    let du: u128 = d as u128;
    if p >= 0 {
        let q: u128 = (p as u128) / du;
        assert(q == tdiv(a as int * b as int, d as int));
        if q > i64::MAX as u128 {
            i64::MAX
        } else {
            q as i64
        }
    } else {
        let q: u128 = ((-p) as u128) / du;
        assert(-(q as int) == tdiv(a as int * b as int, d as int));
        if q >= 9223372036854775808u128 {
            i64::MIN
        } else {
            -(q as i64)
        }
    }
}

/// Saturating product.
pub fn sat_mul(a: i64, b: i64) -> (r: i64)
    ensures
        r as int == sat64(a as int * b as int),
        r == smul(a, b),
{
    let r: i64 = mul_div(a, b, 1);
    r
}

/// The larger of two values.
pub fn max64(a: i64, b: i64) -> (r: i64)
    ensures
        r == if a >= b { a } else { b },
{
    if a >= b {
        a
    } else {
        b
    }
}

/// Integer square root of an unsigned 128-bit value.
pub fn isqrt_u128(x: u128) -> (r: u128)
    ensures
        (r as int) * (r as int) <= x as int,
        (r as int + 1) * (r as int + 1) > x as int,
{
    if x == 0 {
        return 0;
    }
    let mut lo: u128 = 0;
    let mut hi: u128 = 0x10000000000000000;
    proof {
        assert((hi as int) * (hi as int) > x as int) by (nonlinear_arith)
            requires
                hi as int == 0x10000000000000000,
                (x as int) < 0x100000000000000000000000000000000;
    }
    while lo + 1 < hi
        invariant
            lo < hi,
            hi <= 0x10000000000000000,
            (lo as int) * (lo as int) <= x as int,
            (hi as int) * (hi as int) > x as int,
        decreases hi - lo,
    {
        let mid: u128 = lo + (hi - lo) / 2;
        assert(mid < hi);
        assert((mid as int) * (mid as int) < 0x100000000000000000000000000000000)
            by (nonlinear_arith)
            requires
                0 <= mid as int <= 0xffffffffffffffff;
        if mid * mid <= x {
            lo = mid;
        } else {
            hi = mid;
        }
    }
    lo
}

} // verus!
