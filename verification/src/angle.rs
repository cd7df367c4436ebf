//! Angles and radial directions.
//!
//! The core measures angles in fixed-point turn units: `ANGLE_TURN` units make
//! one full revolution. A radial direction is mapped to a velocity vector on
//! the taxicab unit circle (the diamond `|x| + |y| = speed`), which keeps the
//! conversion exact in integer arithmetic: the four quadrant boundaries hit
//! the axes exactly and the taxicab length of the result equals the requested
//! speed for every angle.
use vstd::prelude::*;

use crate::fix::{ssub, sat_sub};
use crate::vec2::Vec2i;

verus! {

/// Number of angle units in one full revolution.
pub const ANGLE_TURN: i64 = 360000;

/// Number of angle units in a quarter revolution.
pub const ANGLE_QUARTER: i64 = 90000;

/// An angle reduced into `[0, ANGLE_TURN)`.
pub open spec fn norm_angle_spec(a: int) -> int {
    a % (ANGLE_TURN as int)
}

/// The `x` component of the taxicab direction of `angle`, scaled by `speed`.
pub open spec fn dir_x_spec(speed: int, angle: int) -> int {
    let na = norm_angle_spec(angle);
    let q = na / (ANGLE_QUARTER as int);
    let r = na % (ANGLE_QUARTER as int);
    let t = speed * r / (ANGLE_QUARTER as int);
    if q == 0 {
        speed - t
    } else if q == 1 {
        -t
    } else if q == 2 {
        -(speed - t)
    } else {
        t
    }
}

/// The `y` component of the taxicab direction of `angle`, scaled by `speed`.
pub open spec fn dir_y_spec(speed: int, angle: int) -> int {
    let na = norm_angle_spec(angle);
    let q = na / (ANGLE_QUARTER as int);
    let r = na % (ANGLE_QUARTER as int);
    let t = speed * r / (ANGLE_QUARTER as int);
    if q == 0 {
        t
    } else if q == 1 {
        speed - t
    } else if q == 2 {
        -t
    } else {
        -(speed - t)
    }
}

/// The taxicab direction of `angle` scaled by `speed`, at the specification
/// level.
pub open spec fn vdir(speed: i64, angle: i64) -> Vec2i {
    Vec2i {
        x: dir_x_spec(speed as int, angle as int) as i64,
        y: dir_y_spec(speed as int, angle as int) as i64,
    }
}

/// A radial offset of signed length `d` in the direction `angle` (negative
/// lengths point the opposite way), at the specification level.
pub open spec fn vradial(d: i64, angle: i64) -> Vec2i {
    if d >= 0 {
        vdir(d, angle)
    } else {
        Vec2i {
            x: ssub(0, vdir(ssub(0, d), angle).x),
            y: ssub(0, vdir(ssub(0, d), angle).y),
        }
    }
}

/// Reduce an angle into `[0, ANGLE_TURN)`.
pub fn norm_angle(a: i64) -> (r: i64)
    ensures
        r as int == norm_angle_spec(a as int),
        0 <= r < ANGLE_TURN,
{
    let aa: i128 = a as i128;
    let m: i128 = ANGLE_TURN as i128;
    if aa >= 0 {
        let k: u128 = (aa as u128) % (m as u128);
        k as i64
    } else {
        let k: u128 = ((-aa) as u128) % (m as u128);
        proof {
            let ai = aa as int;
            let mi = m as int;
            let na = -ai;
            vstd::arithmetic::div_mod::lemma_fundamental_div_mod(na, mi);
            let qq = na / mi;
            let kk = na % mi;
            if kk == 0 {
                assert(ai == (-qq) * mi + 0) by (nonlinear_arith)
                    requires
                        na == mi * qq + kk,
                        kk == 0,
                        ai == -na;
                vstd::arithmetic::div_mod::lemma_fundamental_div_mod_converse_mod(
                    ai,
                    mi,
                    -qq,
                    0,
                );
            } else {
                assert(ai == (-qq - 1) * mi + (mi - kk)) by (nonlinear_arith)
                    requires
                        na == mi * qq + kk,
                        ai == -na;
                vstd::arithmetic::div_mod::lemma_fundamental_div_mod_converse_mod(
                    ai,
                    mi,
                    -qq - 1,
                    mi - kk,
                );
            }
        }
        if k == 0 {
            0
        } else {
            (m as i64) - (k as i64)
        }
    }
}

/// The velocity vector of magnitude `speed` (taxicab length) pointing in the
/// direction `angle`.
pub fn dir_vel(speed: i64, angle: i64) -> (v: Vec2i)
    requires
        speed >= 0,
    ensures
        v.x as int == dir_x_spec(speed as int, angle as int),
        v.y as int == dir_y_spec(speed as int, angle as int),
        v == vdir(speed, angle),
        (if v.x >= 0 { v.x as int } else { -(v.x as int) }) + (if v.y >= 0 {
            v.y as int
        } else {
            -(v.y as int)
        }) == speed as int,
{
    let na: i64 = norm_angle(angle);
    let nau: u64 = na as u64;
    let q: u64 = nau / (ANGLE_QUARTER as u64);
    let r: u64 = nau % (ANGLE_QUARTER as u64);
    proof {
        assert((speed as int) * (r as int) / (ANGLE_QUARTER as int) <= speed as int
            && (speed as int) * (r as int) >= 0 && (speed as int) * (r as int)
            <= 0x7fffffffffffffff * 90000) by (nonlinear_arith)
            requires
                speed >= 0,
                speed as int <= 0x7fffffffffffffff,
                0 <= (r as int) < (ANGLE_QUARTER as int),
                ANGLE_QUARTER as int == 90000;
    }
    let t128: u128 = (speed as u128) * (r as u128) / (ANGLE_QUARTER as u128);
    let t: i64 = t128 as i64;
    if q == 0 {
        Vec2i { x: speed - t, y: t }
    } else if q == 1 {
        Vec2i { x: -t, y: speed - t }
    } else if q == 2 {
        Vec2i { x: -(speed - t), y: -t }
    } else {
        proof {
            assert((nau as int) / 90000 <= 3) by (nonlinear_arith)
                requires
                    0 <= (nau as int) < 360000;
        }
        assert(q == 3);
        Vec2i { x: t, y: -(speed - t) }
    }
}

/// A radial offset of signed length `d` in the direction `angle`.
pub fn radial_offset(d: i64, angle: i64) -> (v: Vec2i)
    ensures
        v == vradial(d, angle),
{
    if d >= 0 {
        dir_vel(d, angle)
    } else {
        let p = dir_vel(sat_sub(0, d), angle);
        Vec2i { x: sat_sub(0, p.x), y: sat_sub(0, p.y) }
    }
}

} // verus!
