//! The polymorphic obstacle abstraction.
//!
//! The hazard kinds form a closed sum type; every per-tick capability
//! (update, collide, should-kill, kill) is one dispatch function with one
//! match. `update` and `kill` take the obstacle by value and `update`
//! returns the stepped obstacle: the owning loop rebinds each slot, which is
//! how a variant that owns further obstacles (the easing decorator) can
//! recurse without aliasing.
//!
//! Timing contract: `dtime`/`time` are the delta and absolute value of the
//! lifecycle clock, which drives warning/show/kill phases; `dease`/`ease`
//! are the same pair for the animation clock, which drives motion. The two
//! pairs are equal unless an easing decorator rewrote the animation pair.
//! `screen` carries the screen size in world units (the screen-metrics
//! collaborator is external, so its readings are passed in by value).
use vstd::prelude::*;

use crate::accum::{UpdateAccumulator, acc_same, acc_plus, acc_jerked, acc_jerk_shake};
use crate::arc::{SpinningArc, arc_wf, arc_step_spec, arc_collides_spec, arc_should_kill_spec};
use crate::bomb::{Bomb, bomb_wf, bomb_step_spec, bomb_collides_spec, bomb_should_kill_spec,
    bomb_ring};
use crate::center::{CenterProj, center_wf, center_eqv, center_step_rel, center_collides_spec,
    center_should_kill_spec};
use crate::collide::collide_cc;
use crate::ease::{Easing, ease_at, apply};
use crate::fix::{sadd, ssub, sat_sub, mul_div, TIME_SCALE};
use crate::gol::{GOLGrid, gol_wf, gol_eqv, gol_fires, gol_step_rel, gol_spawns, grid_step};
use crate::laser::{GrowLaser, SlamLaser, grow_laser_wf, grow_step_spec, grow_fires,
    grow_collides_spec, grow_should_kill_spec, slam_laser_wf, slam_step_spec, slam_fires,
    slam_collides_spec, slam_should_kill_spec};
use crate::pellet::{Pellet, pellet_step, pellet_collides};
use crate::periodic::{Periodic, periodic_wf, periodic_step_spec, periodic_spawns,
    periodic_should_kill_spec};
use crate::player::Player;
use crate::rect::{RotatableRect, RotatingRect, rrect_wf, rrect_step_spec, rrect_collides_spec,
    rrect_should_kill_spec, rotrect_wf, rotrect_step_spec, rotrect_collides_spec,
    rotrect_should_kill_spec};
use crate::vec2::Vec2i;

verus! {

/// One hazard of any kind.
#[derive(Debug)]
pub enum Obstacle {
    Pellet(Pellet),
    Bomb(Bomb),
    GrowLaser(GrowLaser),
    SlamLaser(SlamLaser),
    RotatableRect(RotatableRect),
    RotatingRect(RotatingRect),
    SpinningArc(SpinningArc),
    Periodic(Periodic),
    Gol(GOLGrid),
    Center(CenterProj),
    Eased(Ease),
}

/// The easing decorator: wraps one owned obstacle and remaps its animation
/// clock through `ease`, leaving the lifecycle clock untouched. `prev` holds
/// the previous evaluation of the easing function, so each tick hands the
/// inner obstacle the delta between consecutive evaluations.
#[derive(Debug)]
pub struct Ease {
    pub ease: Easing,
    pub prev: i64,
    pub proj: Box<Obstacle>,
}

/// A live obstacle slot: the obstacle plus the owning loop's bookkeeping.
#[derive(Debug)]
pub struct Obst {
    pub obstacle: Obstacle,
    pub marked_for_removal: bool,
    pub start_time: i64,
}

/// The two obstacles hold the same value: equality up to the contents of
/// any owned vectors.
pub open spec fn obstacle_eqv(a: Obstacle, b: Obstacle) -> bool
    decreases a,
{
    match a {
        Obstacle::Gol(g) => match b {
            Obstacle::Gol(g2) => gol_eqv(g, g2),
            _ => false,
        },
        Obstacle::Center(c) => match b {
            Obstacle::Center(c2) => center_eqv(c, c2),
            _ => false,
        },
        Obstacle::Eased(e) => match b {
            Obstacle::Eased(e2) => e2.ease == e.ease && e2.prev == e.prev && obstacle_eqv(
                *e.proj,
                *e2.proj,
            ),
            _ => false,
        },
        _ => b == a,
    }
}

fn deep_copy(o: &Obstacle) -> (r: Obstacle)
    ensures
        obstacle_eqv(*o, r),
    decreases o,
{
    match o {
        Obstacle::Pellet(p) => Obstacle::Pellet(*p),
        Obstacle::Bomb(b) => Obstacle::Bomb(*b),
        Obstacle::GrowLaser(g) => Obstacle::GrowLaser(*g),
        Obstacle::SlamLaser(sl) => Obstacle::SlamLaser(*sl),
        Obstacle::RotatableRect(r) => Obstacle::RotatableRect(*r),
        Obstacle::RotatingRect(r) => Obstacle::RotatingRect(*r),
        Obstacle::SpinningArc(a) => Obstacle::SpinningArc(*a),
        Obstacle::Periodic(p) => Obstacle::Periodic(*p),
        Obstacle::Gol(g) => Obstacle::Gol(g.clone()),
        Obstacle::Center(c) => Obstacle::Center(c.clone()),
        Obstacle::Eased(e) => Obstacle::Eased(
            Ease { ease: e.ease, prev: e.prev, proj: Box::new(deep_copy(&*e.proj)) },
        ),
    }
}

impl Clone for Obstacle {
    /// Deep value copy.
    fn clone(&self) -> (r: Obstacle)
        ensures
            obstacle_eqv(*self, r),
    {
        deep_copy(self)
    }
}

impl Clone for Ease {
    /// Deep value copy, including the owned inner obstacle.
    fn clone(&self) -> (r: Ease)
        ensures
            r.ease == self.ease,
            r.prev == self.prev,
            obstacle_eqv(*self.proj, *r.proj),
    {
        Ease { ease: self.ease, prev: self.prev, proj: Box::new(deep_copy(&*self.proj)) }
    }
}

impl Clone for Obst {
    /// Deep value copy of the slot and its obstacle.
    fn clone(&self) -> (r: Obst)
        ensures
            obstacle_eqv(self.obstacle, r.obstacle),
            r.marked_for_removal == self.marked_for_removal,
            r.start_time == self.start_time,
    {
        Obst {
            obstacle: deep_copy(&self.obstacle),
            marked_for_removal: self.marked_for_removal,
            start_time: self.start_time,
        }
    }
}

impl Obst {
    /// A fresh, unmarked slot whose lifecycle clock starts at `start_time`.
    pub fn new(obstacle: Obstacle, start_time: i64) -> (r: Obst)
        ensures
            r.obstacle == obstacle,
            r.marked_for_removal == false,
            r.start_time == start_time,
    {
        Obst { obstacle, marked_for_removal: false, start_time }
    }
}

impl Ease {
    /// Wrap `proj` with an arbitrary easing preset.
    pub fn anon(proj: Obstacle, f: Easing) -> (r: Ease)
        ensures
            r.ease == f,
            r.prev == 0,
            *r.proj == proj,
    {
        Ease { ease: f, prev: 0, proj: Box::new(proj) }
    }

    /// Wrap `proj` with the square-root ease.
    pub fn sqrt(proj: Obstacle) -> (r: Ease)
        ensures
            r.ease == Easing::Sqrt,
            r.prev == 0,
            *r.proj == proj,
    {
        Ease { ease: Easing::Sqrt, prev: 0, proj: Box::new(proj) }
    }

    /// Wrap `proj` with the quadratic ease.
    pub fn quad(proj: Obstacle) -> (r: Ease)
        ensures
            r.ease == Easing::Quad,
            r.prev == 0,
            *r.proj == proj,
    {
        Ease { ease: Easing::Quad, prev: 0, proj: Box::new(proj) }
    }

    /// Wrap `proj` with the 16th-note quantized ease.
    pub fn quant16th(proj: Obstacle) -> (r: Ease)
        ensures
            r.ease == Easing::Quant16th,
            r.prev == 0,
            *r.proj == proj,
    {
        Ease { ease: Easing::Quant16th, prev: 0, proj: Box::new(proj) }
    }
}

/// Structural well-formedness: every configured phase duration that the
/// arithmetic divides by is positive, every configured count fits the
/// arithmetic.
pub open spec fn wf(o: Obstacle) -> bool
    decreases o,
{
    match o {
        Obstacle::Pellet(_) => true,
        Obstacle::Bomb(b) => bomb_wf(b),
        Obstacle::GrowLaser(g) => grow_laser_wf(g),
        Obstacle::SlamLaser(sl) => slam_laser_wf(sl),
        Obstacle::RotatableRect(r) => rrect_wf(r),
        Obstacle::RotatingRect(r) => rotrect_wf(r),
        Obstacle::SpinningArc(a) => arc_wf(a),
        Obstacle::Periodic(p) => periodic_wf(p),
        Obstacle::Gol(g) => gol_wf(g),
        Obstacle::Center(c) => center_wf(c),
        Obstacle::Eased(e) => wf(*e.proj),
    }
}

/// How one `update` tick changes the obstacle itself: `r` is the stepped
/// obstacle. (A relation rather than a function only because a stepped grid
/// variant holds fresh heap vectors; at the level of views it determines
/// `r` completely.) What the tick pushes into the accumulator is described
/// by `step_acc_rel`.
pub open spec fn step_rel(
    o: Obstacle,
    r: Obstacle,
    dtime: i64,
    time: i64,
    dease: i64,
    ease: i64,
    screen: Vec2i,
) -> bool
    decreases o,
{
    match o {
        Obstacle::Pellet(p) => r == Obstacle::Pellet(pellet_step(p, dease, screen)),
        Obstacle::Bomb(b) => r == Obstacle::Bomb(bomb_step_spec(b, time)),
        Obstacle::GrowLaser(g) => r == Obstacle::GrowLaser(grow_step_spec(g, time)),
        Obstacle::SlamLaser(sl) => r == Obstacle::SlamLaser(slam_step_spec(sl, time)),
        Obstacle::RotatableRect(rr) => r == Obstacle::RotatableRect(rrect_step_spec(rr, time)),
        Obstacle::RotatingRect(rr) => r == Obstacle::RotatingRect(rotrect_step_spec(rr, time, ease)),
        Obstacle::SpinningArc(a) => r == Obstacle::SpinningArc(arc_step_spec(a, time, ease)),
        Obstacle::Periodic(p) => r == Obstacle::Periodic(periodic_step_spec(p, dtime)),
        Obstacle::Gol(g) => match r {
            Obstacle::Gol(g2) => gol_step_rel(g, g2, time),
            _ => false,
        },
        Obstacle::Center(c) => match r {
            Obstacle::Center(c2) => center_step_rel(c, c2, time, ease),
            _ => false,
        },
        Obstacle::Eased(e) => match r {
            Obstacle::Eased(e2) => {
                let et = ease_at(e.ease, ease);
                let de = ssub(et, e.prev);
                e2.ease == e.ease && e2.prev == et && step_rel(
                    *e.proj,
                    *e2.proj,
                    dtime,
                    time,
                    de,
                    et,
                    screen,
                )
            },
            _ => false,
        },
    }
}

/// How one `update` tick of `o` changes the accumulator, from `pre` to
/// `post`.
pub open spec fn step_acc_rel(
    o: Obstacle,
    dtime: i64,
    time: i64,
    dease: i64,
    ease: i64,
    screen: Vec2i,
    pre: UpdateAccumulator,
    post: UpdateAccumulator,
) -> bool
    decreases o,
{
    match o {
        Obstacle::Pellet(_) => acc_same(pre, post),
        Obstacle::Bomb(_) => acc_same(pre, post),
        Obstacle::GrowLaser(g) => if grow_fires(g, time) {
            acc_jerked(pre, post, g.jerk)
        } else {
            acc_same(pre, post)
        },
        Obstacle::SlamLaser(sl) => if slam_fires(sl, time) {
            acc_jerk_shake(pre, post, sl.jerk, sl.shake)
        } else {
            acc_same(pre, post)
        },
        Obstacle::RotatableRect(_) => acc_same(pre, post),
        Obstacle::RotatingRect(_) => acc_same(pre, post),
        Obstacle::SpinningArc(_) => acc_same(pre, post),
        Obstacle::Periodic(p) => acc_plus(
            pre,
            post,
            periodic_spawns(p.modifier, pre.time, sadd(p.time_mod, dtime), p.time_div, p.interval),
        ),
        Obstacle::Gol(g) => if gol_fires(g, time) {
            acc_plus(
                pre,
                post,
                gol_spawns(
                    grid_step(g),
                    g,
                    screen,
                    g.ticks == 0,
                    pre.time,
                    (g.width * g.height) as nat,
                ),
            )
        } else {
            acc_same(pre, post)
        },
        Obstacle::Center(_) => pre.obstacles@.is_prefix_of(post.obstacles@) && post.jerk
            == pre.jerk && post.time == pre.time && post.shake >= pre.shake,
        Obstacle::Eased(e) => {
            let et = ease_at(e.ease, ease);
            let de = ssub(et, e.prev);
            step_acc_rel(*e.proj, dtime, time, de, et, screen, pre, post)
        },
    }
}

/// How `kill` changes the accumulator, from `pre` to `post`.
pub open spec fn kill_acc_rel(o: Obstacle, pre: UpdateAccumulator, post: UpdateAccumulator) -> bool
    decreases o,
{
    match o {
        Obstacle::Pellet(_) => acc_same(pre, post),
        Obstacle::Bomb(b) => acc_plus(pre, post, bomb_ring(b, pre.time, b.pellets as nat)),
        Obstacle::GrowLaser(_) => acc_same(pre, post),
        Obstacle::SlamLaser(_) => acc_same(pre, post),
        Obstacle::RotatableRect(_) => acc_same(pre, post),
        Obstacle::RotatingRect(_) => acc_same(pre, post),
        Obstacle::SpinningArc(_) => acc_same(pre, post),
        Obstacle::Periodic(_) => acc_same(pre, post),
        Obstacle::Gol(_) => acc_same(pre, post),
        Obstacle::Center(_) => acc_same(pre, post),
        Obstacle::Eased(e) => kill_acc_rel(*e.proj, pre, post),
    }
}

/// Whether the obstacle is touching the player.
pub open spec fn spec_collides(o: Obstacle, player: Player) -> bool
    decreases o,
{
    match o {
        Obstacle::Pellet(p) => pellet_collides(p, player),
        Obstacle::Bomb(b) => bomb_collides_spec(b, player),
        Obstacle::GrowLaser(g) => grow_collides_spec(g, player),
        Obstacle::SlamLaser(sl) => slam_collides_spec(sl, player),
        Obstacle::RotatableRect(r) => rrect_collides_spec(r, player),
        Obstacle::RotatingRect(r) => rotrect_collides_spec(r, player),
        Obstacle::SpinningArc(a) => arc_collides_spec(a, player),
        Obstacle::Periodic(_) => false,
        Obstacle::Gol(_) => false,
        Obstacle::Center(c) => center_collides_spec(c, player),
        Obstacle::Eased(e) => spec_collides(*e.proj, player),
    }
}

/// Whether the obstacle asks to be removed.
pub open spec fn spec_should_kill(o: Obstacle) -> bool
    decreases o,
{
    match o {
        Obstacle::Pellet(p) => p.dead,
        Obstacle::Bomb(b) => bomb_should_kill_spec(b),
        Obstacle::GrowLaser(g) => grow_should_kill_spec(g),
        Obstacle::SlamLaser(sl) => slam_should_kill_spec(sl),
        Obstacle::RotatableRect(r) => rrect_should_kill_spec(r),
        Obstacle::RotatingRect(r) => rotrect_should_kill_spec(r),
        Obstacle::SpinningArc(a) => arc_should_kill_spec(a),
        Obstacle::Periodic(p) => periodic_should_kill_spec(p),
        Obstacle::Gol(g) => g.ticks >= g.max,
        Obstacle::Center(c) => center_should_kill_spec(c),
        Obstacle::Eased(e) => spec_should_kill(*e.proj),
    }
}

impl Obstacle {
    /// Advance the obstacle by one tick. `dtime`/`time` are the lifecycle
    /// clock pair, `dease`/`ease` the animation clock pair, and `screen` the
    /// current screen size. New hazards and effect requests go into
    /// `to_add`; the accumulator's obstacle list only ever grows.
    pub fn update(
        self,
        to_add: &mut UpdateAccumulator,
        dtime: i64,
        time: i64,
        dease: i64,
        ease: i64,
        screen: Vec2i,
    ) -> (r: Obstacle)
        requires
            wf(self),
            dtime >= 0,
            time >= 0,
        ensures
            step_rel(self, r, dtime, time, dease, ease, screen),
            wf(r),
            step_acc_rel(self, dtime, time, dease, ease, screen, *old(to_add), *final(to_add)),
            old(to_add).obstacles@.is_prefix_of(final(to_add).obstacles@),
            final(to_add).time == old(to_add).time,
        decreases self,
    {
        match self {
            Obstacle::Pellet(p) => {
                let np = p.pos.plus(p.vel.scaled(dease, TIME_SCALE));
                let gone = np.x < sat_sub(0, p.rad) || np.x > crate::fix::sat_add(screen.x, p.rad)
                    || np.y < sat_sub(0, p.rad) || np.y > crate::fix::sat_add(screen.y, p.rad);
                Obstacle::Pellet(Pellet { pos: np, vel: p.vel, rad: p.rad, dead: p.dead || gone })
            },
            Obstacle::Bomb(b) => Obstacle::Bomb(Bomb { time, ..b }),
            Obstacle::GrowLaser(g) => {
                let fire = !g.shown && time >= g.warning_time;
                if fire {
                    to_add.jerk(g.jerk);
                }
                Obstacle::GrowLaser(
                    GrowLaser { current_time: time, shown: g.shown || time >= g.warning_time, ..g },
                )
            },
            Obstacle::SlamLaser(sl) => {
                let fire = !sl.shown && time >= sl.warning_time;
                if fire {
                    to_add.jerk(sl.jerk);
                    to_add.shake(sl.shake);
                }
                Obstacle::SlamLaser(
                    SlamLaser {
                        current_time: time,
                        shown: sl.shown || time >= sl.warning_time,
                        ..sl
                    },
                )
            },
            Obstacle::RotatableRect(r) => Obstacle::RotatableRect(
                RotatableRect { current_time: time, ..r },
            ),
            Obstacle::RotatingRect(r) => Obstacle::RotatingRect(
                RotatingRect { current_time: time, ease_time: ease, ..r },
            ),
            Obstacle::SpinningArc(a) => Obstacle::SpinningArc(SpinningArc { time, ease, ..a }),
            Obstacle::Periodic(p) => Obstacle::Periodic(p.advance(to_add, dtime)),
            Obstacle::Gol(g) => Obstacle::Gol(g.advance(to_add, time, screen)),
            Obstacle::Center(c) => Obstacle::Center(c.advance(to_add, dtime, time, dease, ease)),
            Obstacle::Eased(e) => {
                let inner = *e.proj;
                let et = apply(e.ease, ease);
                let de = sat_sub(et, e.prev);
                let stepped = inner.update(to_add, dtime, time, de, et, screen);
                Obstacle::Eased(Ease { ease: e.ease, prev: et, proj: Box::new(stepped) })
            },
        }
    }

    /// Whether the obstacle is touching the player. Pure; variants with a
    /// warning phase report no collision during it.
    pub fn collides(&self, player: Player) -> (r: bool)
        requires
            wf(*self),
        ensures
            r == spec_collides(*self, player),
        decreases self,
    {
        match self {
            Obstacle::Pellet(p) => collide_cc(p.pos, p.rad, player.pos, player.rad),
            Obstacle::Bomb(b) => {
                let bp = b.pos(Vec2i::zero());
                collide_cc(bp, mul_div(b.time, b.rad, TIME_SCALE), player.pos, player.rad)
            },
            Obstacle::GrowLaser(g) => g.collides(player),
            Obstacle::SlamLaser(sl) => sl.collides(player),
            Obstacle::RotatableRect(r) => r.collides(player),
            Obstacle::RotatingRect(r) => r.collides(player),
            Obstacle::SpinningArc(a) => a.collides(player),
            Obstacle::Periodic(_) => false,
            Obstacle::Gol(_) => false,
            Obstacle::Center(c) => c.collides(player),
            Obstacle::Eased(e) => e.proj.collides(player),
        }
    }

    /// Whether the obstacle asks to be removed. Pure.
    pub fn should_kill(&self) -> (r: bool)
        ensures
            r == spec_should_kill(*self),
        decreases self,
    {
        match self {
            Obstacle::Pellet(p) => p.dead,
            Obstacle::Bomb(b) => b.time >= b.life,
            Obstacle::GrowLaser(g) => g.current_time >= crate::fix::sat_add(
                g.warning_time,
                g.show_time,
            ),
            Obstacle::SlamLaser(sl) => sl.current_time >= crate::fix::sat_add(
                sl.warning_time,
                sl.show_time,
            ),
            Obstacle::RotatableRect(r) => r.current_time >= crate::fix::sat_add(
                r.show_time,
                r.warning_time,
            ),
            Obstacle::RotatingRect(r) => r.current_time >= crate::fix::sat_add(
                r.show_time,
                r.warning_time,
            ),
            Obstacle::SpinningArc(a) => a.time >= crate::fix::sat_add(a.warning_time, a.show_time),
            Obstacle::Periodic(p) => p.time_div >= p.max_steps,
            Obstacle::Gol(g) => g.ticks >= g.max,
            Obstacle::Center(c) => c.time > crate::fix::sat_add(c.warning_time, c.show_time),
            Obstacle::Eased(e) => e.proj.should_kill(),
        }
    }

    /// Invoked once, immediately before removal; variants that detonate into
    /// derived hazards push them into `to_add` here.
    pub fn kill(self, to_add: &mut UpdateAccumulator)
        requires
            wf(self),
        ensures
            kill_acc_rel(self, *old(to_add), *final(to_add)),
            old(to_add).obstacles@.is_prefix_of(final(to_add).obstacles@),
            final(to_add).time == old(to_add).time,
        decreases self,
    {
        match self {
            Obstacle::Pellet(_) => {},
            Obstacle::Bomb(b) => b.detonate(to_add),
            Obstacle::GrowLaser(_) => {},
            Obstacle::SlamLaser(_) => {},
            Obstacle::RotatableRect(_) => {},
            Obstacle::RotatingRect(_) => {},
            Obstacle::SpinningArc(_) => {},
            Obstacle::Periodic(_) => {},
            Obstacle::Gol(_) => {},
            Obstacle::Center(_) => {},
            Obstacle::Eased(e) => {
                let inner = *e.proj;
                inner.kill(to_add);
            },
        }
    }
}

} // verus!
