//! Geometric collision predicates.
//!
//! Rotations use the taxicab direction of `angle` (see `angle`), so a
//! "rotated" rectangle frame is the linear map built from that direction.
use vstd::prelude::*;

use crate::angle::{dir_vel, vdir, norm_angle, norm_angle_spec, ANGLE_QUARTER, ANGLE_TURN};
use crate::fix::{sadd, ssub, smuldiv, sat_add, sat_sub, mul_div, max64, POS_SCALE};
use crate::vec2::{Vec2i, vplus, vminus, vscaled};

verus! {

/// The square of a value, exactly.
pub open spec fn sq(x: i64) -> int {
    (x as int) * (x as int)
}

fn sq_u128(a: i64) -> (res: u128)
    ensures
        res as int == sq(a),
        res <= 0x40000000000000000000000000000000,
{
    let m: u128 = if a >= 0 {
        a as u128
    } else {
        (-(a as i128)) as u128
    };
    proof {
        assert((m as int) * (m as int) == sq(a) && (m as int) * (m as int)
            <= 0x40000000000000000000000000000000) by (nonlinear_arith)
            requires
                m as int == a as int || m as int == -(a as int),
                0 <= m as int <= 0x8000000000000000;
    }
    m * m
}

fn dist_sq_le(a: i64, b: i64, r: i64) -> (res: bool)
    ensures
        res == (sq(a) + sq(b) <= sq(r)),
{
    sq_u128(a) + sq_u128(b) <= sq_u128(r)
}

fn dist_sq_ge(a: i64, b: i64, r: i64) -> (res: bool)
    ensures
        res == (sq(a) + sq(b) >= sq(r)),
{
    sq_u128(a) + sq_u128(b) >= sq_u128(r)
}

/// Whether two circles overlap.
pub open spec fn collide_cc_spec(c1: Vec2i, r1: i64, c2: Vec2i, r2: i64) -> bool {
    let rr = sadd(r1, r2);
    rr >= 0 && sq(ssub(c1.x, c2.x)) + sq(ssub(c1.y, c2.y)) <= sq(rr)
}

/// Circle–circle collision test.
pub fn collide_cc(c1: Vec2i, r1: i64, c2: Vec2i, r2: i64) -> (res: bool)
    ensures
        res == collide_cc_spec(c1, r1, c2, r2),
{
    let rr: i64 = sat_add(r1, r2);
    rr >= 0 && dist_sq_le(sat_sub(c1.x, c2.x), sat_sub(c1.y, c2.y), rr)
}

/// Clamp `u` into `[-h, h]` (for `h >= 0`).
pub open spec fn clamp_half(u: i64, h: i64) -> i64 {
    if u > h {
        h
    } else if u < -h {
        (-h) as i64
    } else {
        u
    }
}

/// Whether the circle `(c, r)` overlaps the rectangle of size `size` centered
/// at `center`, rotated by `rot`.
pub open spec fn collide_cr_spec(center: Vec2i, size: Vec2i, rot: i64, c: Vec2i, r: i64) -> bool {
    let d = vdir(POS_SCALE, rot);
    let dx = ssub(c.x, center.x);
    let dy = ssub(c.y, center.y);
    let u = sadd(smuldiv(dx, d.x, POS_SCALE), smuldiv(dy, d.y, POS_SCALE));
    let v = sadd(smuldiv(dy, d.x, POS_SCALE), ssub(0, smuldiv(dx, d.y, POS_SCALE)));
    let hx = smuldiv(if size.x >= 0 { size.x } else { 0 }, 1, 2);
    let hy = smuldiv(if size.y >= 0 { size.y } else { 0 }, 1, 2);
    let du = ssub(u, clamp_half(u, hx));
    let dv = ssub(v, clamp_half(v, hy));
    r >= 0 && sq(du) + sq(dv) <= sq(r)
}

fn clamp_half_exec(u: i64, h: i64) -> (r: i64)
    requires
        h >= 0,
    ensures
        r == clamp_half(u, h),
{
    if u > h {
        h
    } else if u < -h {
        -h
    } else {
        u
    }
}

/// Circle versus rotated rectangle.
pub fn collide_cr(center: Vec2i, size: Vec2i, rot: i64, c: Vec2i, r: i64) -> (res: bool)
    ensures
        res == collide_cr_spec(center, size, rot, c, r),
{
    let d = dir_vel(POS_SCALE, rot);
    let dx = sat_sub(c.x, center.x);
    let dy = sat_sub(c.y, center.y);
    let u = sat_add(mul_div(dx, d.x, POS_SCALE), mul_div(dy, d.y, POS_SCALE));
    let v = sat_add(mul_div(dy, d.x, POS_SCALE), sat_sub(0, mul_div(dx, d.y, POS_SCALE)));
    let hx = mul_div(max64(size.x, 0), 1, 2);
    let hy = mul_div(max64(size.y, 0), 1, 2);
    let du = sat_sub(u, clamp_half_exec(u, hx));
    let dv = sat_sub(v, clamp_half_exec(v, hy));
    r >= 0 && dist_sq_le(du, dv, r)
}

/// The taxicab angle of a vector, in `[0, ANGLE_TURN)`; zero for the zero
/// vector.
pub open spec fn vec_angle_spec(v: Vec2i) -> i64 {
    let ax = if v.x >= 0 { v.x } else { ssub(0, v.x) };
    let ay = if v.y >= 0 { v.y } else { ssub(0, v.y) };
    let l1 = sadd(ax, ay);
    if l1 == 0 {
        0
    } else if v.x > 0 && v.y >= 0 {
        smuldiv(ANGLE_QUARTER, ay, l1)
    } else if v.x <= 0 && v.y > 0 {
        sadd(ANGLE_QUARTER, smuldiv(ANGLE_QUARTER, ax, l1))
    } else if v.x < 0 && v.y <= 0 {
        sadd((2 * ANGLE_QUARTER) as i64, smuldiv(ANGLE_QUARTER, ay, l1))
    } else {
        let a = sadd((3 * ANGLE_QUARTER) as i64, smuldiv(ANGLE_QUARTER, ax, l1));
        if a >= ANGLE_TURN {
            (ANGLE_TURN - 1) as i64
        } else {
            a
        }
    }
}

fn frac_quarter(n: i64, d: i64) -> (r: i64)
    requires
        0 <= n <= d,
        d >= 1,
    ensures
        r == smuldiv(ANGLE_QUARTER, n, d),
        0 <= r <= ANGLE_QUARTER,
{
    proof {
        assert(0 <= 90000 * (n as int) / (d as int) <= 90000) by (nonlinear_arith)
            requires
                0 <= n as int <= d as int,
                d as int >= 1;
    }
    mul_div(ANGLE_QUARTER, n, d)
}

/// The taxicab angle of a vector.
pub fn vec_angle(v: Vec2i) -> (r: i64)
    ensures
        r == vec_angle_spec(v),
        0 <= r < ANGLE_TURN,
{
    let ax: i64 = if v.x >= 0 { v.x } else { sat_sub(0, v.x) };
    let ay: i64 = if v.y >= 0 { v.y } else { sat_sub(0, v.y) };
    let l1: i64 = sat_add(ax, ay);
    if l1 == 0 {
        0
    } else if v.x > 0 && v.y >= 0 {
        frac_quarter(ay, l1)
    } else if v.x <= 0 && v.y > 0 {
        sat_add(ANGLE_QUARTER, frac_quarter(ax, l1))
    } else if v.x < 0 && v.y <= 0 {
        sat_add(2 * ANGLE_QUARTER, frac_quarter(ay, l1))
    } else {
        let a: i64 = sat_add(3 * ANGLE_QUARTER, frac_quarter(ax, l1));
        if a >= ANGLE_TURN {
            ANGLE_TURN - 1
        } else {
            a
        }
    }
}

/// The center of the rotated-rectangle approximation of a line segment, at
/// the specification level.
pub open spec fn rect_center_spec(p1: Vec2i, p2: Vec2i) -> Vec2i {
    vscaled(vplus(p1, p2), 1, 2)
}

/// The size of the rotated-rectangle approximation of a line segment: its
/// taxicab length by its thickness, at the specification level.
pub open spec fn rect_size_spec(p1: Vec2i, p2: Vec2i, thickness: i64) -> Vec2i {
    let d = vminus(p2, p1);
    let ax = if d.x >= 0 { d.x } else { ssub(0, d.x) };
    let ay = if d.y >= 0 { d.y } else { ssub(0, d.y) };
    Vec2i { x: sadd(ax, ay), y: thickness }
}

/// Approximate the segment `p1..p2` of the given thickness as a rotated
/// rectangle `(center, size, rotation)` for collision testing.
pub fn rectify_line(p1: Vec2i, p2: Vec2i, thickness: i64) -> (r: (Vec2i, Vec2i, i64))
    ensures
        r.0 == rect_center_spec(p1, p2),
        r.1 == rect_size_spec(p1, p2, thickness),
        r.2 == vec_angle_spec(vminus(p2, p1)),
{
    let center = p1.plus(p2).scaled(1, 2);
    let d = p2.minus(p1);
    let ax: i64 = if d.x >= 0 { d.x } else { sat_sub(0, d.x) };
    let ay: i64 = if d.y >= 0 { d.y } else { sat_sub(0, d.y) };
    let size = Vec2i { x: sat_add(ax, ay), y: thickness };
    let rot = vec_angle(d);
    (center, size, rot)
}

/// Whether the circle `(p, prad)` touches the annular wedge centered at
/// `center` between radii `inner` and `outer`, spanning the angles
/// `[from, from + width]`.
pub open spec fn collide_arc_spec(
    p: Vec2i,
    prad: i64,
    center: Vec2i,
    outer: i64,
    inner: i64,
    from: i64,
    width: i64,
) -> bool {
    let dx = ssub(p.x, center.x);
    let dy = ssub(p.y, center.y);
    let ro = if sadd(outer, prad) >= 0 {
        sadd(outer, prad)
    } else {
        0
    };
    let ri = if ssub(inner, prad) >= 0 {
        ssub(inner, prad)
    } else {
        0
    };
    let w = if width < 0 {
        0
    } else if width > ANGLE_TURN {
        ANGLE_TURN
    } else {
        width
    };
    let rel = norm_angle_spec(ssub(vec_angle_spec(Vec2i { x: dx, y: dy }), from) as int);
    sq(dx) + sq(dy) <= sq(ro) && sq(dx) + sq(dy) >= sq(ri) && rel <= w as int
}

/// Circle versus annular wedge.
pub fn collide_arc(
    p: Vec2i,
    prad: i64,
    center: Vec2i,
    outer: i64,
    inner: i64,
    from: i64,
    width: i64,
) -> (res: bool)
    ensures
        res == collide_arc_spec(p, prad, center, outer, inner, from, width),
{
    let dx: i64 = sat_sub(p.x, center.x);
    let dy: i64 = sat_sub(p.y, center.y);
    let ro: i64 = max64(sat_add(outer, prad), 0);
    let ri: i64 = max64(sat_sub(inner, prad), 0);
    let w: i64 = if width < 0 {
        0
    } else if width > ANGLE_TURN {
        ANGLE_TURN
    } else {
        width
    };
    let rel: i64 = norm_angle(sat_sub(vec_angle(Vec2i { x: dx, y: dy }), from));
    dist_sq_le(dx, dy, ro) && dist_sq_ge(dx, dy, ri) && rel <= w
}

} // verus!
