//! Easing functions for the animation clock.
//!
//! An easing function remaps the animation clock of a wrapped obstacle
//! (time in, time out, both in `TIME_SCALE` units per beat). The presets are
//! data values, not closures, so a wrapped obstacle stays a plain cloneable
//! value. Negative inputs are treated as time zero by the presets whose
//! real-valued counterparts are undefined there.
use vstd::prelude::*;

use crate::fix::{sadd, ssub, smul, smuldiv, sat_add, sat_sub, sat_mul, mul_div, max64, isqrt_u128,
    TIME_SCALE};

verus! {

/// A reusable easing preset.
#[derive(Clone, Copy, PartialEq, Eq, Structural, Debug)]
pub enum Easing {
    /// `f(t) = t`: a true no-op.
    Identity,
    /// `f(t) = sqrt(t)`: fast launch, settling flight.
    Sqrt,
    /// `f(t) = t * t`: slow launch, accelerating flight.
    Quad,
    /// `f(t)` quantized downward to whole 16th notes (quarters of a beat).
    Quant16th,
    /// `f(t) = 1 - 1/(3t + 1) + t`: a lurching launch that settles into
    /// linear motion.
    Surge,
}

/// The integer square root (largest `r` with `r * r <= x`; zero for
/// negative inputs).
pub open spec fn sqrt_floor(x: int) -> int
    decreases x,
{
    if x <= 0 {
        0
    } else {
        let r = sqrt_floor(x - 1);
        if (r + 1) * (r + 1) <= x {
            r + 1
        } else {
            r
        }
    }
}

/// `sqrt_floor` is indeed the integer square root.
pub proof fn lemma_sqrt_floor(x: int)
    requires
        x >= 0,
    ensures
        sqrt_floor(x) >= 0,
        sqrt_floor(x) * sqrt_floor(x) <= x,
        (sqrt_floor(x) + 1) * (sqrt_floor(x) + 1) > x,
    decreases x,
{
    if x == 0 {
    } else {
        lemma_sqrt_floor(x - 1);
        let r = sqrt_floor(x - 1);
        if (r + 1) * (r + 1) <= x {
            assert((r + 2) * (r + 2) > x) by (nonlinear_arith)
                requires
                    r >= 0,
                    (r + 1) * (r + 1) > x - 1,
                    (r + 1) * (r + 1) <= x;
        }
    }
}

/// Any `r` that brackets `x` between consecutive squares is `sqrt_floor(x)`.
pub proof fn lemma_sqrt_unique(x: int, r: int)
    requires
        x >= 0,
        r >= 0,
        r * r <= x,
        (r + 1) * (r + 1) > x,
    ensures
        r == sqrt_floor(x),
{
    lemma_sqrt_floor(x);
    let s = sqrt_floor(x);
    assert(r == s) by (nonlinear_arith)
        requires
            r >= 0,
            s >= 0,
            r * r <= x,
            (r + 1) * (r + 1) > x,
            s * s <= x,
            (s + 1) * (s + 1) > x;
}

/// The value of preset `e` at time `t`.
pub open spec fn ease_at(e: Easing, t: i64) -> i64 {
    match e {
        Easing::Identity => t,
        Easing::Sqrt => {
            let tc = if t >= 0 { t } else { 0 };
            sqrt_floor((TIME_SCALE as int) * tc) as i64
        },
        Easing::Quad => smuldiv(t, t, TIME_SCALE),
        Easing::Quant16th => smul(smuldiv(t, 4, TIME_SCALE), 250),
        Easing::Surge => {
            let tc: i64 = if t >= 0 { t } else { 0 };
            let den = sadd(smul(3, tc), TIME_SCALE);
            sadd(ssub(TIME_SCALE, smuldiv(TIME_SCALE, TIME_SCALE, den)), tc)
        },
    }
}

/// Evaluate preset `e` at time `t`.
pub fn apply(e: Easing, t: i64) -> (r: i64)
    ensures
        r == ease_at(e, t),
{
    match e {
        Easing::Identity => t,
        Easing::Sqrt => {
            let tc: i64 = max64(t, 0);
            proof {
                assert((tc as int) * 1000 <= 0x7fffffffffffffff * 1000) by (nonlinear_arith)
                    requires
                        0 <= tc as int <= 0x7fffffffffffffff;
            }
            let v: u128 = (tc as u128) * (TIME_SCALE as u128);
            let s: u128 = isqrt_u128(v);
            proof {
                lemma_sqrt_unique(v as int, s as int);
                assert((s as int) * (s as int) <= v as int);
                assert(s as int <= 0x7fffffffffffffff) by (nonlinear_arith)
                    requires
                        s >= 0,
                        (s as int) * (s as int) <= v as int,
                        (v as int) <= 0x7fffffffffffffff * 1000;
            }
            s as i64
        },
        Easing::Quad => mul_div(t, t, TIME_SCALE),
        Easing::Quant16th => sat_mul(mul_div(t, 4, TIME_SCALE), 250),
        Easing::Surge => {
            let tc: i64 = max64(t, 0);
            let den: i64 = sat_add(sat_mul(3, tc), TIME_SCALE);
            assert(den >= TIME_SCALE);
            sat_add(sat_sub(TIME_SCALE, mul_div(TIME_SCALE, TIME_SCALE, den)), tc)
        },
    }
}

} // verus!
