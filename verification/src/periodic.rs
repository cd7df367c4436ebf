//! The generic repeating spawner.
use vstd::prelude::*;

use crate::accum::{UpdateAccumulator, acc_plus};
use crate::args::ModifyArgs;
use crate::fix::{sadd, sat_add, sat_sub};
use crate::obstacle::Obst;
use crate::spawner::{Accumulatee, spawner_wf, spawn_result};
use crate::vec2::Vec2i;

verus! {

/// Every `interval` units of lifecycle time, invokes its owned spawn
/// command with an incrementing step index; a large tick fires several
/// times. It asks to be removed after `max_steps` firings.
#[derive(Clone, Copy, PartialEq, Eq, Structural, Debug)]
pub struct Periodic {
    pub modifier: Accumulatee,
    pub time_mod: i64,
    pub time_div: usize,
    pub interval: i64,
    pub max_steps: usize,
}

/// Configured values the spawner's arithmetic relies on.
pub open spec fn periodic_wf(p: Periodic) -> bool {
    p.interval >= 1 && p.time_mod >= 0 && spawner_wf(p.modifier)
}

/// A step counter incremented without wrapping.
pub open spec fn step_inc(td: usize) -> usize {
    if td < usize::MAX {
        (td + 1) as usize
    } else {
        td
    }
}

/// The `(time_mod, time_div)` pair after draining whole intervals out of
/// the accumulated remainder.
pub open spec fn periodic_drained(tm: i64, td: usize, interval: i64) -> (i64, usize)
    decreases tm,
{
    if interval >= 1 && tm >= interval {
        periodic_drained((tm - interval) as i64, step_inc(td), interval)
    } else {
        (tm, td)
    }
}

/// The obstacles spawned while draining: one spawner invocation per whole
/// interval, at consecutive step indices.
pub open spec fn periodic_spawns(k: Accumulatee, t: i64, tm: i64, td: usize, interval: i64) -> Seq<
    Obst,
>
    decreases tm,
{
    if interval >= 1 && tm >= interval {
        spawn_result(k, ModifyArgs { time: t, pos: Vec2i { x: 0, y: 0 }, vel: Vec2i { x: 0, y: 0 }, rad: 0, step: td })
            + periodic_spawns(k, t, (tm - interval) as i64, step_inc(td), interval)
    } else {
        Seq::empty()
    }
}

/// The spawner state after one tick of duration `dtime`.
pub open spec fn periodic_step_spec(p: Periodic, dtime: i64) -> Periodic {
    let drained = periodic_drained(sadd(p.time_mod, dtime), p.time_div, p.interval);
    Periodic { time_mod: drained.0, time_div: drained.1, ..p }
}

/// Whether the spawner has fired its full step budget.
pub open spec fn periodic_should_kill_spec(p: Periodic) -> bool {
    p.time_div >= p.max_steps
}

impl Periodic {
    /// A spawner firing `modifier` every `interval`, `steps` times in all.
    pub fn new(steps: usize, interval: i64, modifier: Accumulatee) -> (r: Periodic)
        requires
            interval >= 1,
        ensures
            r == (Periodic { modifier, time_mod: 0, time_div: 0, interval, max_steps: steps }),
    {
        Periodic { modifier, time_mod: 0, time_div: 0, interval, max_steps: steps }
    }

    /// A spawn command for a trail of rectangles of the given lifetime; the
    /// placement record says where step `i` lands.
    pub fn rect_trail(
        rect_life: i64,
        warning_time: i64,
        grow_time: i64,
        start: Vec2i,
        delta: Vec2i,
        size: Vec2i,
        rot: i64,
    ) -> (r: Accumulatee)
        requires
            grow_time >= 1,
            warning_time >= 0,
            rect_life >= 0,
            warning_time + rect_life >= 1,
        ensures
            r == (Accumulatee::RectTrail {
                rect_life,
                warning_time,
                grow_time,
                start,
                delta,
                size,
                rot,
            }),
            spawner_wf(r),
    {
        Accumulatee::RectTrail { rect_life, warning_time, grow_time, start, delta, size, rot }
    }

    /// A spawn command placing rectangles of the given lifetime along a
    /// straight line with constant spacing.
    pub fn linear(
        rect_life: i64,
        warning_time: i64,
        grow_time: i64,
        start: Vec2i,
        delta: Vec2i,
        scale: Vec2i,
        rot: i64,
    ) -> (r: Accumulatee)
        requires
            grow_time >= 1,
            warning_time >= 0,
            rect_life >= 0,
            warning_time + rect_life >= 1,
        ensures
            r == (Accumulatee::RectTrail {
                rect_life,
                warning_time,
                grow_time,
                start,
                delta,
                size: scale,
                rot,
            }),
            spawner_wf(r),
    {
        Periodic::rect_trail(rect_life, warning_time, grow_time, start, delta, scale, rot)
    }

    /// One tick: accumulate `dtime` into the remainder, then fire once per
    /// whole interval contained in it.
    pub fn advance(self, to_add: &mut UpdateAccumulator, dtime: i64) -> (r: Periodic)
        requires
            periodic_wf(self),
            dtime >= 0,
        ensures
            r == periodic_step_spec(self, dtime),
            acc_plus(
                *old(to_add),
                *final(to_add),
                periodic_spawns(
                    self.modifier,
                    old(to_add).time,
                    sadd(self.time_mod, dtime),
                    self.time_div,
                    self.interval,
                ),
            ),
            periodic_wf(r),
    {
        let m0 = sat_add(self.time_mod, dtime);
        let mut tm: i64 = m0;
        let mut td: usize = self.time_div;
        let ghost t0 = to_add.time;
        while tm >= self.interval
            invariant
                periodic_wf(self),
                tm >= 0,
                t0 == to_add.time,
                t0 == old(to_add).time,
                periodic_drained(m0, self.time_div, self.interval) == periodic_drained(
                    tm,
                    td,
                    self.interval,
                ),
                to_add.shake == old(to_add).shake,
                to_add.jerk == old(to_add).jerk,
                old(to_add).obstacles@ + periodic_spawns(
                    self.modifier,
                    t0,
                    m0,
                    self.time_div,
                    self.interval,
                ) == to_add.obstacles@ + periodic_spawns(self.modifier, t0, tm, td, self.interval),
            decreases tm,
        {
            let t = to_add.time();
            self.modifier.run(to_add, ModifyArgs::new(t).step(td));
            proof {
                assert(to_add.obstacles@ + periodic_spawns(
                    self.modifier,
                    t0,
                    (tm - self.interval) as i64,
                    step_inc(td),
                    self.interval,
                ) =~= old(to_add).obstacles@ + periodic_spawns(
                    self.modifier,
                    t0,
                    m0,
                    self.time_div,
                    self.interval,
                ));
            }
            tm = tm - self.interval;
            td = if td < usize::MAX {
                td + 1
            } else {
                td
            };
        }
        Periodic { modifier: self.modifier, time_mod: tm, time_div: td, interval: self.interval, max_steps: self.max_steps }
    }
}

} // verus!
