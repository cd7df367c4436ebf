//! The simplest hazard: a circle in straight-line motion.
use vstd::prelude::*;

use crate::collide::collide_cc_spec;
use crate::fix::{sadd, ssub, tdiv, TIME_SCALE};
use crate::player::Player;
use crate::vec2::{Vec2i, vplus, vscaled};

verus! {

/// A circular projectile moving with constant velocity on the animation
/// clock. It dies once it leaves the screen rectangle outset by its own
/// radius, and stays dead afterwards.
#[derive(Clone, Copy, PartialEq, Eq, Structural, Debug)]
pub struct Pellet {
    pub pos: Vec2i,
    pub vel: Vec2i,
    pub rad: i64,
    pub dead: bool,
}

/// Whether `pos` lies outside the screen rectangle outset by `rad`.
pub open spec fn off_screen(pos: Vec2i, rad: i64, screen: Vec2i) -> bool {
    pos.x < ssub(0, rad) || pos.x > sadd(screen.x, rad) || pos.y < ssub(0, rad) || pos.y > sadd(
        screen.y,
        rad,
    )
}

/// One tick of pellet motion: the position advances by
/// `vel * dease / TIME_SCALE` and the death mark latches on once the pellet
/// is off screen.
pub open spec fn pellet_step(p: Pellet, dease: i64, screen: Vec2i) -> Pellet {
    let np = vplus(p.pos, vscaled(p.vel, dease, TIME_SCALE));
    Pellet { pos: np, vel: p.vel, rad: p.rad, dead: p.dead || off_screen(np, p.rad, screen) }
}

/// Whether the pellet overlaps the player capsule.
pub open spec fn pellet_collides(p: Pellet, player: Player) -> bool {
    collide_cc_spec(p.pos, p.rad, player.pos, player.rad)
}

impl Pellet {
    /// A live pellet at `pos` with velocity `vel` and radius `rad`.
    pub fn new(pos: Vec2i, vel: Vec2i, rad: i64) -> (r: Pellet)
        ensures
            r == (Pellet { pos, vel, rad, dead: false }),
    {
        Pellet { pos, vel, rad, dead: false }
    }
}

proof fn lemma_tdiv_shift(a: int, b: int, d: int)
    requires
        d >= 1,
        a % d == 0,
        (a >= 0 && b >= 0) || (a <= 0 && b <= 0),
    ensures
        tdiv(a + b, d) == tdiv(a, d) + tdiv(b, d),
{
    if a >= 0 && b >= 0 {
        vstd::arithmetic::div_mod::lemma_fundamental_div_mod(a, d);
        vstd::arithmetic::div_mod::lemma_hoist_over_denominator(b, a / d, d as nat);
        assert((a / d) * d == d * (a / d)) by (nonlinear_arith);
        assert(b / d + a / d == (a + b) / d);
    } else {
        let na = -a;
        let nb = -b;
        vstd::arithmetic::div_mod::lemma_fundamental_div_mod(a, d);
        assert(na == d * (-(a / d)) + 0) by (nonlinear_arith)
            requires
                a == d * (a / d) + a % d,
                a % d == 0,
                na == -a;
        vstd::arithmetic::div_mod::lemma_fundamental_div_mod_converse_mod(na, d, -(a / d), 0);
        vstd::arithmetic::div_mod::lemma_fundamental_div_mod(na, d);
        vstd::arithmetic::div_mod::lemma_hoist_over_denominator(nb, na / d, d as nat);
        assert((na / d) * d == d * (na / d)) by (nonlinear_arith);
        assert(na == d * (na / d)) by (nonlinear_arith)
            requires
                na == d * (na / d) + na % d,
                na % d == 0;
        assert(nb / d + na / d == (na + nb) / d);
        assert(na / d == -(a / d)) by (nonlinear_arith)
            requires
                na == d * (na / d),
                a == d * (a / d),
                na == -a,
                d >= 1;
    }
}

/// Straight-line integration is additive: moving a pellet with animation
/// deltas `d1` then `d2` lands it exactly where one move with `d1 + d2`
/// would, whenever the first move divides evenly into whole position units
/// and the combined move stays inside the coordinate range. (With an
/// uneven first move the fixed-point rounding of the two short moves can
/// lose a unit that the single long move keeps.)
pub proof fn lemma_pellet_motion_additive(p: Pellet, d1: i64, d2: i64, screen: Vec2i)
    requires
        d1 >= 0,
        d2 >= 0,
        d1 + d2 <= i64::MAX,
        (p.vel.x as int * d1) % (TIME_SCALE as int) == 0,
        (p.vel.y as int * d1) % (TIME_SCALE as int) == 0,
        -0x8000000000000000 <= tdiv(p.vel.x as int * (d1 + d2), TIME_SCALE as int)
            <= 0x7fffffffffffffff,
        -0x8000000000000000 <= tdiv(p.vel.y as int * (d1 + d2), TIME_SCALE as int)
            <= 0x7fffffffffffffff,
        -0x8000000000000000 <= p.pos.x + tdiv(p.vel.x as int * (d1 + d2), TIME_SCALE as int)
            <= 0x7fffffffffffffff,
        -0x8000000000000000 <= p.pos.y + tdiv(p.vel.y as int * (d1 + d2), TIME_SCALE as int)
            <= 0x7fffffffffffffff,
    ensures
        pellet_step(pellet_step(p, d1, screen), d2, screen).pos == pellet_step(
            p,
            (d1 + d2) as i64,
            screen,
        ).pos,
{
    lemma_component(p.pos.x, p.vel.x, d1, d2);
    lemma_component(p.pos.y, p.vel.y, d1, d2);
}

proof fn lemma_component(pos: i64, vel: i64, d1: i64, d2: i64)
    requires
        d1 >= 0,
        d2 >= 0,
        d1 + d2 <= i64::MAX,
        (vel as int * d1) % (TIME_SCALE as int) == 0,
        -0x8000000000000000 <= tdiv(vel as int * (d1 + d2), TIME_SCALE as int)
            <= 0x7fffffffffffffff,
        -0x8000000000000000 <= pos + tdiv(vel as int * (d1 + d2), TIME_SCALE as int)
            <= 0x7fffffffffffffff,
    ensures
        crate::fix::sadd(
            crate::fix::sadd(pos, crate::fix::smuldiv(vel, d1, TIME_SCALE)),
            crate::fix::smuldiv(vel, d2, TIME_SCALE),
        ) == crate::fix::sadd(pos, crate::fix::smuldiv(vel, (d1 + d2) as i64, TIME_SCALE)),
{
    let a = vel as int * d1;
    let b = vel as int * d2;
    let sc = TIME_SCALE as int;
    assert(a + b == vel as int * ((d1 + d2) as i64) && ((vel as int >= 0 && a >= 0 && b >= 0) || (
    vel as int <= 0 && a <= 0 && b <= 0))) by (nonlinear_arith)
        requires
            d1 >= 0,
            d2 >= 0,
            0 <= d1 + d2 <= 0x7fffffffffffffff,
            a == vel as int * d1,
            b == vel as int * d2;
    lemma_tdiv_shift(a, b, sc);
    assert(tdiv(a, sc) + tdiv(b, sc) == tdiv(a + b, sc));
    assert((a >= 0 && b >= 0) ==> 0 <= tdiv(a, sc) <= tdiv(a + b, sc) && 0 <= tdiv(b, sc) <= tdiv(
        a + b,
        sc,
    )) by {
        if a >= 0 && b >= 0 {
            vstd::arithmetic::div_mod::lemma_div_is_ordered(a, a + b, sc);
            vstd::arithmetic::div_mod::lemma_div_is_ordered(b, a + b, sc);
            vstd::arithmetic::div_mod::lemma_div_pos_is_pos(a, sc);
            vstd::arithmetic::div_mod::lemma_div_pos_is_pos(b, sc);
        }
    }
    assert((a <= 0 && b <= 0) ==> tdiv(a + b, sc) <= tdiv(a, sc) <= 0 && tdiv(a + b, sc) <= tdiv(
        b,
        sc,
    ) <= 0) by {
        if a <= 0 && b <= 0 {
            vstd::arithmetic::div_mod::lemma_div_is_ordered(-a, -(a + b), sc);
            vstd::arithmetic::div_mod::lemma_div_is_ordered(-b, -(a + b), sc);
            vstd::arithmetic::div_mod::lemma_div_pos_is_pos(-a, sc);
            vstd::arithmetic::div_mod::lemma_div_pos_is_pos(-b, sc);
        }
    }
    let t1 = tdiv(a, sc);
    let t2 = tdiv(b, sc);
    let t12 = tdiv(a + b, sc);
    assert(crate::fix::smuldiv(vel, d1, TIME_SCALE) == t1);
    assert(crate::fix::smuldiv(vel, d2, TIME_SCALE) == t2);
    assert(crate::fix::smuldiv(vel, (d1 + d2) as i64, TIME_SCALE) == t12);
    assert(crate::fix::sadd(pos, t1 as i64) == pos + t1);
    assert(crate::fix::sadd((pos + t1) as i64, t2 as i64) == pos + t12);
    assert(crate::fix::sadd(pos, t12 as i64) == pos + t12);
}

} // verus!
