//! The pellet-spinner helper owned by the composite boss hazard.
use vstd::prelude::*;

use crate::accum::{UpdateAccumulator, acc_plus, acc_same};
use crate::angle::{vdir, vradial, dir_vel, radial_offset, ANGLE_TURN};
use crate::fix::{sadd, ssub, smul, smuldiv, sat_add, sat_sub, sat_mul, mul_div};
use crate::obstacle::{Obst, Obstacle};
use crate::pellet::Pellet;
use crate::vec2::{Vec2i, vplus};

verus! {

/// Fires pellets radially outward from a tracked center, one every `period`
/// units, at a fixed angular step, up to `max` pellets in all. Not an
/// obstacle itself: its owner drives it and discards it once exhausted.
#[derive(Clone, Copy, PartialEq, Eq, Structural, Debug)]
pub struct PelletSpinner {
    pub count: usize,
    pub max: usize,
    pub phase: i64,
    pub period: i64,
    pub start_time: i64,
    pub rad: i64,
    pub speed: i64,
}

/// Configured values the spinner's arithmetic relies on.
pub open spec fn spinner_wf(s: PelletSpinner) -> bool {
    s.speed >= 0 && s.max <= 1000000000 && s.count <= s.max
}

/// Whether a run at `time` fires the next pellet: its scheduled moment has
/// come and the budget is not exhausted.
pub open spec fn spinner_fires(s: PelletSpinner, time: i64) -> bool {
    time >= sadd(s.start_time, smul(s.period, s.count as i64)) && s.count < s.max
}

/// The spinner after a run at `time`.
pub open spec fn spinner_step(s: PelletSpinner, time: i64) -> PelletSpinner {
    if spinner_fires(s, time) {
        PelletSpinner { count: (s.count + 1) as usize, ..s }
    } else {
        s
    }
}

/// The launch angle of the pellet fired by the step that brings the count to
/// `count`.
pub open spec fn spinner_angle(s: PelletSpinner, count: usize) -> i64 {
    sadd(smuldiv(count as i64, ANGLE_TURN, s.max as i64), s.phase)
}

/// The pellet a firing run enqueues: launched from the rim of the tracked
/// circle, radially outward.
pub open spec fn spinner_pellet(
    s: PelletSpinner,
    time: i64,
    cur_pos: Vec2i,
    cur_rad: i64,
    t: i64,
) -> Obst {
    let stepped = spinner_step(s, time);
    let angle = spinner_angle(s, stepped.count);
    Obst {
        obstacle: Obstacle::Pellet(
            Pellet {
                pos: vplus(cur_pos, vradial(ssub(cur_rad, s.rad), angle)),
                vel: vdir(s.speed, angle),
                rad: s.rad,
                dead: false,
            },
        ),
        marked_for_removal: false,
        start_time: t,
    }
}

impl PelletSpinner {
    /// One run at `time` from the owner's current position and radius:
    /// fires at most one pellet, and reports whether the spinner is
    /// exhausted and may be discarded.
    pub fn run(
        &mut self,
        time: i64,
        cur_pos: Vec2i,
        cur_rad: i64,
        to_add: &mut UpdateAccumulator,
    ) -> (done: bool)
        requires
            spinner_wf(*old(self)),
        ensures
            *final(self) == spinner_step(*old(self), time),
            spinner_wf(*final(self)),
            done == (final(self).count >= final(self).max),
            if spinner_fires(*old(self), time) {
                acc_plus(
                    *old(to_add),
                    *final(to_add),
                    seq![
                        spinner_pellet(*old(self), time, cur_pos, cur_rad, old(to_add).time),
                    ],
                )
            } else {
                acc_same(*old(to_add), *final(to_add))
            },
    {
        let threshold = sat_add(
            self.start_time,
            sat_mul(self.period, #[verifier::truncate] (self.count as i64)),
        );
        if time >= threshold && self.count < self.max {
            self.count = self.count + 1;
            let angle = sat_add(
                mul_div(self.count as i64, ANGLE_TURN, self.max as i64),
                self.phase,
            );
            let off = radial_offset(sat_sub(cur_rad, self.rad), angle);
            let vel = dir_vel(self.speed, angle);
            let p = Pellet::new(cur_pos.plus(off), vel, self.rad);
            to_add.obst(Obstacle::Pellet(p));
            proof {
                assert(final(to_add).obstacles@ =~= old(to_add).obstacles@ + seq![
                    spinner_pellet(*old(self), time, cur_pos, cur_rad, old(to_add).time),
                ]);
            }
        }
        self.count >= self.max
    }
}

} // verus!
