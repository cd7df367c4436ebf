//! Crate-wide laws of the obstacle lifecycle.
//!
//! These public proofs state, once and for all obstacle kinds, what the
//! per-variant contracts add up to: expiry is monotone on the lifecycle
//! clock, the warning phase shields the player, the step relation is
//! deterministic, and the identity ease is a true no-op.
use vstd::prelude::*;

use crate::ease::Easing;
use crate::obstacle::{Obstacle, Ease, wf, step_rel, spec_collides, spec_should_kill,
    obstacle_eqv};
use crate::player::Player;
use crate::vec2::Vec2i;

verus! {

/// Whether the obstacle expires purely by a lifecycle-clock threshold (its
/// scripted total duration), possibly under easing decorators.
pub open spec fn timed(o: Obstacle) -> bool
    decreases o,
{
    match o {
        Obstacle::Bomb(_) => true,
        Obstacle::GrowLaser(_) => true,
        Obstacle::SlamLaser(_) => true,
        Obstacle::RotatableRect(_) => true,
        Obstacle::RotatingRect(_) => true,
        Obstacle::SpinningArc(_) => true,
        Obstacle::Center(_) => true,
        Obstacle::Eased(e) => timed(*e.proj),
        _ => false,
    }
}

/// Whether the obstacle has a warning phase gating its collision test.
pub open spec fn has_warning(o: Obstacle) -> bool
    decreases o,
{
    match o {
        Obstacle::GrowLaser(_) => true,
        Obstacle::SlamLaser(_) => true,
        Obstacle::RotatableRect(_) => true,
        Obstacle::RotatingRect(_) => true,
        Obstacle::SpinningArc(_) => true,
        Obstacle::Center(_) => true,
        Obstacle::Eased(e) => has_warning(*e.proj),
        _ => false,
    }
}

/// The lifecycle time the obstacle last saw (through any decorators).
pub open spec fn tracked_time(o: Obstacle) -> i64
    decreases o,
{
    match o {
        Obstacle::Bomb(b) => b.time,
        Obstacle::GrowLaser(g) => g.current_time,
        Obstacle::SlamLaser(sl) => sl.current_time,
        Obstacle::RotatableRect(r) => r.current_time,
        Obstacle::RotatingRect(r) => r.current_time,
        Obstacle::SpinningArc(a) => a.time,
        Obstacle::Center(c) => c.time,
        Obstacle::Eased(e) => tracked_time(*e.proj),
        _ => 0,
    }
}

/// The configured warning duration (through any decorators).
pub open spec fn warning_of(o: Obstacle) -> i64
    decreases o,
{
    match o {
        Obstacle::GrowLaser(g) => g.warning_time,
        Obstacle::SlamLaser(sl) => sl.warning_time,
        Obstacle::RotatableRect(r) => r.warning_time,
        Obstacle::RotatingRect(r) => r.warning_time,
        Obstacle::SpinningArc(a) => a.warning_time,
        Obstacle::Center(c) => c.warning_time,
        Obstacle::Eased(e) => warning_of(*e.proj),
        _ => 0,
    }
}

/// The scripted total duration of a duration-scripted obstacle (through any
/// decorators): warning plus show time, or a bomb's lifetime.
pub open spec fn total_duration_of(o: Obstacle) -> i64
    decreases o,
{
    match o {
        Obstacle::Bomb(b) => b.life,
        Obstacle::GrowLaser(g) => crate::fix::sadd(g.warning_time, g.show_time),
        Obstacle::SlamLaser(sl) => crate::fix::sadd(sl.warning_time, sl.show_time),
        Obstacle::RotatableRect(r) => crate::fix::sadd(r.warning_time, r.show_time),
        Obstacle::RotatingRect(r) => crate::fix::sadd(r.warning_time, r.show_time),
        Obstacle::SpinningArc(a) => crate::fix::sadd(a.warning_time, a.show_time),
        Obstacle::Center(c) => crate::fix::sadd(c.warning_time, c.show_time),
        Obstacle::Eased(e) => total_duration_of(*e.proj),
        _ => 0,
    }
}

/// A duration-scripted obstacle asks for removal on any tick strictly past
/// its scripted total duration.
pub proof fn lemma_expiry_reached(
    o: Obstacle,
    r: Obstacle,
    dtime: i64,
    t: i64,
    dease: i64,
    ease: i64,
    screen: Vec2i,
)
    requires
        wf(o),
        timed(o),
        step_rel(o, r, dtime, t, dease, ease, screen),
        t > total_duration_of(o),
    ensures
        spec_should_kill(r),
    decreases o,
{
    match o {
        Obstacle::Eased(e) => {
            match r {
                Obstacle::Eased(e1) => {
                    let et = crate::ease::ease_at(e.ease, ease);
                    let de = crate::fix::ssub(et, e.prev);
                    lemma_expiry_reached(*e.proj, *e1.proj, dtime, t, de, et, screen);
                },
                _ => {},
            }
        },
        _ => {},
    }
}

/// Expiry is monotone on the lifecycle clock: if one tick of a
/// duration-scripted obstacle at time `t1` leaves it asking for removal,
/// then a tick at any later time `t2` does too — `should_kill` can never
/// fall back to false as lifecycle time grows.
pub proof fn lemma_expiry_monotone(
    o: Obstacle,
    r1: Obstacle,
    r2: Obstacle,
    dtime: i64,
    t1: i64,
    t2: i64,
    dease: i64,
    ease: i64,
    screen: Vec2i,
)
    requires
        wf(o),
        timed(o),
        step_rel(o, r1, dtime, t1, dease, ease, screen),
        step_rel(o, r2, dtime, t2, dease, ease, screen),
        t1 <= t2,
        spec_should_kill(r1),
    ensures
        spec_should_kill(r2),
    decreases o,
{
    match o {
        Obstacle::Eased(e) => {
            match r1 {
                Obstacle::Eased(e1) => {
                    match r2 {
                        Obstacle::Eased(e2) => {
                            let et = crate::ease::ease_at(e.ease, ease);
                            let de = crate::fix::ssub(et, e.prev);
                            lemma_expiry_monotone(
                                *e.proj,
                                *e1.proj,
                                *e2.proj,
                                dtime,
                                t1,
                                t2,
                                de,
                                et,
                                screen,
                            );
                        },
                        _ => {},
                    }
                },
                _ => {},
            }
        },
        _ => {},
    }
}

/// A duration-scripted obstacle never asks for removal on a tick at
/// lifecycle time zero: every scripted total duration is positive.
pub proof fn lemma_no_expiry_at_spawn(
    o: Obstacle,
    r: Obstacle,
    dtime: i64,
    dease: i64,
    ease: i64,
    screen: Vec2i,
)
    requires
        wf(o),
        timed(o),
        step_rel(o, r, dtime, 0, dease, ease, screen),
    ensures
        !spec_should_kill(r),
    decreases o,
{
    match o {
        Obstacle::Eased(e) => {
            match r {
                Obstacle::Eased(e1) => {
                    let et = crate::ease::ease_at(e.ease, ease);
                    let de = crate::fix::ssub(et, e.prev);
                    lemma_no_expiry_at_spawn(*e.proj, *e1.proj, dtime, de, et, screen);
                },
                _ => {},
            }
        },
        _ => {},
    }
}

/// The warning phase shields the player: while the lifecycle clock of a
/// variant with a warning phase has not reached its warning duration, its
/// collision test is false for every player, regardless of position.
pub proof fn lemma_warning_shields(o: Obstacle, player: Player)
    requires
        wf(o),
        has_warning(o),
        tracked_time(o) < warning_of(o),
    ensures
        !spec_collides(o, player),
    decreases o,
{
    match o {
        Obstacle::Eased(e) => {
            lemma_warning_shields(*e.proj, player);
        },
        _ => {},
    }
}

/// The step relation is deterministic: two results of the same tick on the
/// same obstacle hold the same value.
pub proof fn lemma_step_deterministic(
    o: Obstacle,
    r1: Obstacle,
    r2: Obstacle,
    dtime: i64,
    time: i64,
    dease: i64,
    ease: i64,
    screen: Vec2i,
)
    requires
        step_rel(o, r1, dtime, time, dease, ease, screen),
        step_rel(o, r2, dtime, time, dease, ease, screen),
    ensures
        obstacle_eqv(r1, r2),
    decreases o,
{
    match o {
        Obstacle::Eased(e) => {
            match r1 {
                Obstacle::Eased(e1) => {
                    match r2 {
                        Obstacle::Eased(e2) => {
                            let et = crate::ease::ease_at(e.ease, ease);
                            let de = crate::fix::ssub(et, e.prev);
                            lemma_step_deterministic(
                                *e.proj,
                                *e1.proj,
                                *e2.proj,
                                dtime,
                                time,
                                de,
                                et,
                                screen,
                            );
                        },
                        _ => {},
                    }
                },
                _ => {},
            }
        },
        _ => {},
    }
}

/// Obstacles that hold the same value answer collision and removal queries
/// identically.
pub proof fn lemma_eqv_same_queries(a: Obstacle, b: Obstacle, player: Player)
    requires
        obstacle_eqv(a, b),
    ensures
        spec_collides(a, player) == spec_collides(b, player),
        spec_should_kill(a) == spec_should_kill(b),
    decreases a,
{
    match a {
        Obstacle::Eased(e) => {
            match b {
                Obstacle::Eased(e2) => {
                    lemma_eqv_same_queries(*e.proj, *e2.proj, player);
                },
                _ => {},
            }
        },
        _ => {},
    }
}

/// Wrapping an obstacle with the identity ease is a true no-op: on a tick
/// whose animation clock is consistent with the wrapper's memory
/// (`prev == ease - dease`), the wrapper hands its inner obstacle exactly
/// the clock pair it would have received unwrapped, the updated wrapper
/// still satisfies that consistency for the next tick, and the updated
/// inner obstacle answers every collision and removal query exactly like
/// the obstacle updated without the wrapper.
pub proof fn lemma_identity_ease_no_op(
    e: Ease,
    r: Obstacle,
    ri: Obstacle,
    dtime: i64,
    time: i64,
    dease: i64,
    ease: i64,
    screen: Vec2i,
    player: Player,
)
    requires
        e.ease == Easing::Identity,
        e.prev as int == ease as int - dease as int,
        step_rel(Obstacle::Eased(e), r, dtime, time, dease, ease, screen),
        step_rel(*e.proj, ri, dtime, time, dease, ease, screen),
    ensures
        r matches Obstacle::Eased(e2) && e2.ease == Easing::Identity && e2.prev == ease
            && obstacle_eqv(*e2.proj, ri),
        spec_collides(r, player) == spec_collides(ri, player),
        spec_should_kill(r) == spec_should_kill(ri),
{
    match r {
        Obstacle::Eased(e2) => {
            let et = crate::ease::ease_at(e.ease, ease);
            assert(et == ease);
            assert(crate::fix::ssub(et, e.prev) == dease);
            lemma_step_deterministic(
                *e.proj,
                *e2.proj,
                ri,
                dtime,
                time,
                dease,
                ease,
                screen,
            );
            lemma_eqv_same_queries(*e2.proj, ri, player);
        },
        _ => {},
    }
}

} // verus!
