//! The per-tick spawn accumulator.
use vstd::prelude::*;

use crate::obstacle::{Obst, Obstacle};
use crate::vec2::{Vec2i, vplus};

verus! {

/// Process-tick-scoped buffer of newly spawned obstacles and aggregate
/// effect requests. Obstacle entries are append-only during an update pass;
/// the owning loop drains them after the pass. Shake requests compose by
/// maximum, jerk requests by (saturating) vector sum, so no request is ever
/// silently dropped.
pub struct UpdateAccumulator {
    pub obstacles: Vec<Obst>,
    pub shake: i64,
    pub jerk: Vec2i,
    pub time: i64,
}

impl UpdateAccumulator {
    /// An empty accumulator capturing the lifecycle time `time`.
    pub fn new(time: i64) -> (r: UpdateAccumulator)
        ensures
            r.obstacles@ =~= Seq::<Obst>::empty(),
            r.shake == 0,
            r.jerk == (Vec2i { x: 0, y: 0 }),
            r.time == time,
    {
        UpdateAccumulator { obstacles: Vec::new(), shake: 0, jerk: Vec2i { x: 0, y: 0 }, time }
    }

    /// The lifecycle time captured for this pass.
    pub fn time(&self) -> (r: i64)
        ensures
            r == self.time,
    {
        self.time
    }

    /// Enqueue a ready-made wrapper.
    pub fn obstacle(&mut self, o: Obst)
        ensures
            final(self).obstacles@ == old(self).obstacles@.push(o),
            final(self).shake == old(self).shake,
            final(self).jerk == old(self).jerk,
            final(self).time == old(self).time,
    {
        self.obstacles.push(o);
    }

    /// Enqueue a bare obstacle, timestamped with the captured lifecycle time.
    pub fn obst(&mut self, o: Obstacle)
        ensures
            final(self).obstacles@ == old(self).obstacles@.push(
                Obst { obstacle: o, marked_for_removal: false, start_time: old(self).time },
            ),
            final(self).shake == old(self).shake,
            final(self).jerk == old(self).jerk,
            final(self).time == old(self).time,
    {
        let t = self.time;
        self.obstacles.push(Obst { obstacle: o, marked_for_removal: false, start_time: t });
    }

    /// Request camera shake of magnitude `mag`; requests compose by maximum.
    pub fn shake(&mut self, mag: i64)
        ensures
            final(self).shake == if mag >= old(self).shake {
                mag
            } else {
                old(self).shake
            },
            final(self).obstacles@ == old(self).obstacles@,
            final(self).jerk == old(self).jerk,
            final(self).time == old(self).time,
    {
        if mag >= self.shake {
            self.shake = mag;
        }
    }

    /// Request a directional impulse; requests compose by saturating sum.
    pub fn jerk(&mut self, v: Vec2i)
        ensures
            final(self).jerk == vplus(old(self).jerk, v),
            final(self).obstacles@ == old(self).obstacles@,
            final(self).shake == old(self).shake,
            final(self).time == old(self).time,
    {
        self.jerk = self.jerk.plus(v);
    }
}

/// The two accumulators hold the same contents.
pub open spec fn acc_same(pre: UpdateAccumulator, post: UpdateAccumulator) -> bool {
    post.obstacles@ == pre.obstacles@ && post.shake == pre.shake && post.jerk == pre.jerk
        && post.time == pre.time
}

/// `post` is `pre` with the jerk request `v` composed in.
pub open spec fn acc_jerked(pre: UpdateAccumulator, post: UpdateAccumulator, v: Vec2i) -> bool {
    post.obstacles@ == pre.obstacles@ && post.shake == pre.shake && post.jerk == vplus(pre.jerk, v)
        && post.time == pre.time
}

/// `post` is `pre` with the jerk request `v` and the shake request `mag`
/// composed in.
pub open spec fn acc_jerk_shake(
    pre: UpdateAccumulator,
    post: UpdateAccumulator,
    v: Vec2i,
    mag: i64,
) -> bool {
    post.obstacles@ == pre.obstacles@ && post.shake == (if mag >= pre.shake {
        mag
    } else {
        pre.shake
    }) && post.jerk == vplus(pre.jerk, v) && post.time == pre.time
}

/// `post` extends `pre` by exactly the obstacles `extra`, with unchanged
/// effects.
pub open spec fn acc_plus(pre: UpdateAccumulator, post: UpdateAccumulator, extra: Seq<
    Obst,
>) -> bool {
    post.obstacles@ == pre.obstacles@ + extra && post.shake == pre.shake && post.jerk == pre.jerk
        && post.time == pre.time
}

} // verus!
