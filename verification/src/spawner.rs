//! Deferred spawn commands.
//!
//! Composite obstacles defer "what gets created" from "when it gets
//! created" through a cloneable command value invoked with a `ModifyArgs`
//! record. The commands are data, not closures, so they stay inspectable
//! and cloneable.
use vstd::prelude::*;

use crate::accum::{UpdateAccumulator, acc_plus};
use crate::args::ModifyArgs;
use crate::fix::ssub;
use crate::obstacle::{Obst, Obstacle};
use crate::pellet::Pellet;
use crate::rect::RotatableRect;
use crate::vec2::{Vec2i, vplus, vscaled};

verus! {

/// A deferred "spawn one obstacle" command.
#[derive(Clone, Copy, PartialEq, Eq, Structural, Debug)]
pub enum Accumulatee {
    /// Spawn one pellet at the invocation's position, velocity and radius.
    Pellet,
    /// Spawn one rectangle of the given lifetime along a straight line:
    /// step `i` is centered at `start + delta * (i - 1)`.
    RectTrail {
        rect_life: i64,
        warning_time: i64,
        grow_time: i64,
        start: Vec2i,
        delta: Vec2i,
        size: Vec2i,
        rot: i64,
    },
}

/// Configured durations a spawn command's output relies on.
pub open spec fn spawner_wf(k: Accumulatee) -> bool {
    match k {
        Accumulatee::Pellet => true,
        Accumulatee::RectTrail { rect_life, warning_time, grow_time, .. } => grow_time >= 1
            && warning_time >= 0 && rect_life >= 0 && warning_time + rect_life >= 1,
    }
}

/// Exactly the obstacles one invocation of `k` with `args` enqueues.
pub open spec fn spawn_result(k: Accumulatee, args: ModifyArgs) -> Seq<Obst> {
    match k {
        Accumulatee::Pellet => seq![
            Obst {
                obstacle: Obstacle::Pellet(
                    Pellet { pos: args.pos, vel: args.vel, rad: args.rad, dead: false },
                ),
                marked_for_removal: false,
                start_time: args.time,
            },
        ],
        Accumulatee::RectTrail { rect_life, warning_time, grow_time, start, delta, size, rot } => {
            let center = vplus(start, vscaled(delta, ssub(args.step as i64, 1), 1));
            seq![
                Obst {
                    obstacle: Obstacle::RotatableRect(
                        RotatableRect {
                            center,
                            size,
                            rot,
                            warning_time,
                            show_time: rect_life,
                            current_time: 0,
                            grow_time,
                        },
                    ),
                    marked_for_removal: false,
                    start_time: args.time,
                },
            ]
        },
    }
}

impl Accumulatee {
    /// Run the command once: enqueue exactly `spawn_result(self, args)`.
    pub fn run(&self, to_add: &mut UpdateAccumulator, args: ModifyArgs)
        ensures
            acc_plus(*old(to_add), *final(to_add), spawn_result(*self, args)),
    {
        match self {
            Accumulatee::Pellet => {
                to_add.obstacle(
                    Obst {
                        obstacle: Obstacle::Pellet(Pellet::new(args.pos, args.vel, args.rad)),
                        marked_for_removal: false,
                        start_time: args.time,
                    },
                );
                proof {
                    assert(final(to_add).obstacles@ =~= old(to_add).obstacles@ + spawn_result(
                        *self,
                        args,
                    ));
                }
            },
            Accumulatee::RectTrail {
                rect_life,
                warning_time,
                grow_time,
                start,
                delta,
                size,
                rot,
            } => {
                let center = start.plus(delta.scaled(ssub_step(args.step), 1));
                to_add.obstacle(
                    Obst {
                        obstacle: Obstacle::RotatableRect(
                            RotatableRect {
                                center,
                                size: *size,
                                rot: *rot,
                                warning_time: *warning_time,
                                show_time: *rect_life,
                                current_time: 0,
                                grow_time: *grow_time,
                            },
                        ),
                        marked_for_removal: false,
                        start_time: args.time,
                    },
                );
                proof {
                    assert(final(to_add).obstacles@ =~= old(to_add).obstacles@ + spawn_result(
                        *self,
                        args,
                    ));
                }
            },
        }
    }
}

fn ssub_step(step: usize) -> (r: i64)
    ensures
        r == ssub(step as i64, 1),
{
    crate::fix::sat_sub(#[verifier::truncate] (step as i64), 1)
}

} // verus!
