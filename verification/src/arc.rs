//! The spinning annular-wedge hazard.
use vstd::prelude::*;

use crate::angle::ANGLE_TURN;
use crate::collide::{collide_arc, collide_arc_spec};
use crate::color::{Rgba, cmul, cmul_spec, mix, mix_spec, white, white_spec};
use crate::fix::{sadd, ssub, smuldiv, sat_add, sat_sub, mul_div};
use crate::player::Player;
use crate::vec2::Vec2i;

verus! {

/// An annular wedge between two angles that rotates at `rpb` revolutions per
/// beat of the animation clock.
#[derive(Clone, Copy, PartialEq, Eq, Structural, Debug)]
pub struct SpinningArc {
    pub center: Vec2i,
    pub inner_rad: i64,
    pub outer_rad: i64,
    pub left_angle: i64,
    pub right_angle: i64,
    pub rpb: i64,
    pub warning_time: i64,
    pub show_time: i64,
    pub ease: i64,
    pub time: i64,
}

/// Configured durations an arc's arithmetic relies on.
pub open spec fn arc_wf(a: SpinningArc) -> bool {
    a.warning_time >= 1 && a.show_time >= 0
}

/// The current rotation offset, driven by the animation clock.
pub open spec fn arc_rot_spec(a: SpinningArc) -> i64 {
    smuldiv(smuldiv(a.ease, a.rpb, 1000), ANGLE_TURN, 1000)
}

/// The drawn color: dimmed proportionally during warning, flashing from
/// white for one beat after arming, then the base color.
pub open spec fn arc_color_spec(a: SpinningArc, color: Rgba) -> Rgba {
    if a.time < a.warning_time {
        cmul_spec(color, smuldiv(a.time, 1000, a.warning_time))
    } else if 0 <= ssub(a.time, a.warning_time) < 1000 {
        mix_spec(white_spec(), color, ssub(a.time, a.warning_time))
    } else {
        color
    }
}

/// The arc state after one tick at lifecycle time `time` and animation time
/// `ease`.
pub open spec fn arc_step_spec(a: SpinningArc, time: i64, ease: i64) -> SpinningArc {
    SpinningArc { time, ease, ..a }
}

/// Whether the arc is armed and its rotated wedge touches the player.
pub open spec fn arc_collides_spec(a: SpinningArc, player: Player) -> bool {
    a.time >= a.warning_time && collide_arc_spec(
        player.pos,
        player.rad,
        a.center,
        a.outer_rad,
        a.inner_rad,
        sadd(a.left_angle, arc_rot_spec(a)),
        ssub(a.right_angle, a.left_angle),
    )
}

/// Whether the arc's scripted duration has elapsed.
pub open spec fn arc_should_kill_spec(a: SpinningArc) -> bool {
    a.time >= sadd(a.warning_time, a.show_time)
}

impl SpinningArc {
    /// A wedge with every field at its neutral value; configure it in
    /// builder style (at least a positive warning time) before use.
    pub fn new() -> (r: SpinningArc)
        ensures
            r == (SpinningArc {
                center: Vec2i { x: 0, y: 0 },
                inner_rad: 0,
                outer_rad: 0,
                left_angle: 0,
                right_angle: 0,
                rpb: 0,
                warning_time: 0,
                show_time: 0,
                ease: 0,
                time: 0,
            }),
    {
        SpinningArc {
            center: Vec2i { x: 0, y: 0 },
            inner_rad: 0,
            outer_rad: 0,
            left_angle: 0,
            right_angle: 0,
            rpb: 0,
            warning_time: 0,
            show_time: 0,
            ease: 0,
            time: 0,
        }
    }

    /// The same arc with `center` replaced.
    pub fn center(self, center: Vec2i) -> (r: SpinningArc)
        ensures
            r == (SpinningArc { center, ..self }),
    {
        SpinningArc { center, ..self }
    }

    /// The same arc with `inner_rad` replaced.
    pub fn inner_rad(self, inner_rad: i64) -> (r: SpinningArc)
        ensures
            r == (SpinningArc { inner_rad, ..self }),
    {
        SpinningArc { inner_rad, ..self }
    }

    /// The same arc with `outer_rad` replaced.
    pub fn outer_rad(self, outer_rad: i64) -> (r: SpinningArc)
        ensures
            r == (SpinningArc { outer_rad, ..self }),
    {
        SpinningArc { outer_rad, ..self }
    }

    /// The same arc with `left_angle` replaced.
    pub fn left_angle(self, left_angle: i64) -> (r: SpinningArc)
        ensures
            r == (SpinningArc { left_angle, ..self }),
    {
        SpinningArc { left_angle, ..self }
    }

    /// The same arc with `right_angle` replaced.
    pub fn right_angle(self, right_angle: i64) -> (r: SpinningArc)
        ensures
            r == (SpinningArc { right_angle, ..self }),
    {
        SpinningArc { right_angle, ..self }
    }

    /// The same arc with `rpb` replaced.
    pub fn rpb(self, rpb: i64) -> (r: SpinningArc)
        ensures
            r == (SpinningArc { rpb, ..self }),
    {
        SpinningArc { rpb, ..self }
    }

    /// The same arc with `warning_time` replaced.
    pub fn warning_time(self, warning_time: i64) -> (r: SpinningArc)
        requires
            warning_time >= 1,
        ensures
            r == (SpinningArc { warning_time, ..self }),
    {
        SpinningArc { warning_time, ..self }
    }

    /// The same arc with `show_time` replaced.
    pub fn show_time(self, show_time: i64) -> (r: SpinningArc)
        requires
            show_time >= 0,
        ensures
            r == (SpinningArc { show_time, ..self }),
    {
        SpinningArc { show_time, ..self }
    }

    /// The current rotation offset.
    pub fn rot(&self) -> (r: i64)
        ensures
            r == arc_rot_spec(*self),
    {
        mul_div(mul_div(self.ease, self.rpb, 1000), ANGLE_TURN, 1000)
    }

    /// The drawn color at the current time.
    pub fn color(&self, color: Rgba) -> (r: Rgba)
        requires
            arc_wf(*self),
        ensures
            r == arc_color_spec(*self, color),
    {
        if self.time < self.warning_time {
            cmul(color, mul_div(self.time, 1000, self.warning_time))
        } else if 0 <= sat_sub(self.time, self.warning_time) && sat_sub(
            self.time,
            self.warning_time,
        ) < 1000 {
            mix(white(), color, sat_sub(self.time, self.warning_time))
        } else {
            color
        }
    }

    /// Whether the arc is armed and touches the player.
    pub fn collides(&self, player: Player) -> (r: bool)
        ensures
            r == arc_collides_spec(*self, player),
    {
        self.time >= self.warning_time && collide_arc(
            player.pos,
            player.rad,
            self.center,
            self.outer_rad,
            self.inner_rad,
            sat_add(self.left_angle, self.rot()),
            sat_sub(self.right_angle, self.left_angle),
        )
    }
}

} // verus!
