//! Line-segment hazards: the growing laser and the slamming laser.
use vstd::prelude::*;

use crate::collide::{collide_cr, collide_cr_spec, rectify_line, rect_center_spec, rect_size_spec,
    vec_angle_spec};
use crate::color::{Rgba, mix, mix_spec, white, white_spec, COLOR_SCALE};
use crate::fix::{sadd, ssub, smuldiv, sat_add, sat_sub, mul_div};
use crate::player::Player;
use crate::vec2::{Vec2i, vlerp, vminus};

verus! {

/// A straight laser between two fixed points whose thickness follows the
/// warning / grow / show / shrink envelope. It fires a one-shot jerk event on
/// the tick it transitions from warning to armed.
#[derive(Clone, Copy, PartialEq, Eq, Structural, Debug)]
pub struct GrowLaser {
    pub start: Vec2i,
    pub end: Vec2i,
    pub thickness: i64,
    pub warning_time: i64,
    pub show_time: i64,
    pub current_time: i64,
    pub grow_time: i64,
    pub shown: bool,
    pub jerk: Vec2i,
    pub fade_in: i64,
    pub fade_opacity: i64,
}

/// Configured durations a grow laser's arithmetic relies on.
pub open spec fn grow_laser_wf(g: GrowLaser) -> bool {
    g.grow_time >= 1 && g.warning_time >= 0 && g.show_time >= 0 && g.warning_time + g.show_time
        >= 1
}

/// The smoothed thickness of the laser at its current time: zero before the
/// grow window, interpolating up during it, full during show, and mirroring
/// back down to zero over the final grow window.
pub open spec fn grow_thick_spec(g: GrowLaser) -> i64 {
    let total = sadd(g.warning_time, g.show_time);
    if g.warning_time <= g.current_time <= sadd(g.warning_time, g.grow_time) {
        smuldiv(g.thickness, ssub(g.current_time, g.warning_time), g.grow_time)
    } else if g.current_time > ssub(total, g.grow_time) {
        smuldiv(g.thickness, ssub(total, g.current_time), g.grow_time)
    } else {
        g.thickness
    }
}

/// The laser state after one tick at lifecycle time `time`.
pub open spec fn grow_step_spec(g: GrowLaser, time: i64) -> GrowLaser {
    GrowLaser {
        current_time: time,
        shown: g.shown || time >= g.warning_time,
        ..g
    }
}

/// Whether this tick is the warning-to-armed transition that fires the jerk.
pub open spec fn grow_fires(g: GrowLaser, time: i64) -> bool {
    !g.shown && time >= g.warning_time
}

/// Whether the laser is armed and its collision rectangle touches the player.
pub open spec fn grow_collides_spec(g: GrowLaser, player: Player) -> bool {
    g.current_time >= g.warning_time && collide_cr_spec(
        rect_center_spec(g.start, g.end),
        rect_size_spec(g.start, g.end, grow_thick_spec(g)),
        vec_angle_spec(vminus(g.end, g.start)),
        player.pos,
        player.rad,
    )
}

/// Whether the laser's scripted duration has elapsed.
pub open spec fn grow_should_kill_spec(g: GrowLaser) -> bool {
    g.current_time >= sadd(g.warning_time, g.show_time)
}

impl GrowLaser {
    /// A laser from `start` to `end`. The warning and show durations
    /// together must be positive and the default grow window is a quarter
    /// beat.
    pub fn new(
        start: Vec2i,
        end: Vec2i,
        thickness: i64,
        warning_time: i64,
        show_time: i64,
        jerk: Vec2i,
    ) -> (r: GrowLaser)
        requires
            warning_time >= 0,
            show_time >= 0,
            warning_time + show_time >= 1,
        ensures
            r == (GrowLaser {
                start,
                end,
                thickness,
                warning_time,
                show_time,
                jerk,
                current_time: 0,
                shown: false,
                grow_time: 250,
                fade_opacity: 500,
                fade_in: warning_time,
            }),
            grow_laser_wf(r),
    {
        GrowLaser {
            start,
            end,
            thickness,
            warning_time,
            show_time,
            jerk,
            current_time: 0,
            shown: false,
            grow_time: 250,
            fade_opacity: 500,
            fade_in: warning_time,
        }
    }

    /// The same laser with `fade_opacity` replaced.
    pub fn fade_opacity(self, fade_opacity: i64) -> (r: GrowLaser)
        ensures
            r == (GrowLaser { fade_opacity, ..self }),
    {
        GrowLaser { fade_opacity, ..self }
    }

    /// The same laser with `fade_in` replaced.
    pub fn fade_in(self, fade_in: i64) -> (r: GrowLaser)
        ensures
            r == (GrowLaser { fade_in, ..self }),
    {
        GrowLaser { fade_in, ..self }
    }

    /// The same laser with `grow_time` replaced.
    pub fn grow_time(self, grow_time: i64) -> (r: GrowLaser)
        requires
            grow_time >= 1,
        ensures
            r == (GrowLaser { grow_time, ..self }),
    {
        GrowLaser { grow_time, ..self }
    }

    /// The smoothed thickness at the current time.
    pub fn thick(&self) -> (r: i64)
        requires
            grow_laser_wf(*self),
        ensures
            r == grow_thick_spec(*self),
    {
        let total = sat_add(self.warning_time, self.show_time);
        if self.warning_time <= self.current_time && self.current_time <= sat_add(
            self.warning_time,
            self.grow_time,
        ) {
            mul_div(self.thickness, sat_sub(self.current_time, self.warning_time), self.grow_time)
        } else if self.current_time > sat_sub(total, self.grow_time) {
            mul_div(self.thickness, sat_sub(total, self.current_time), self.grow_time)
        } else {
            self.thickness
        }
    }

    /// Whether the laser is armed and touches the player.
    pub fn collides(&self, player: Player) -> (r: bool)
        requires
            grow_laser_wf(*self),
        ensures
            r == grow_collides_spec(*self, player),
    {
        self.current_time >= self.warning_time && {
            let (center, size, rot) = rectify_line(self.start, self.end, self.thick());
            collide_cr(center, size, rot, player.pos, player.rad)
        }
    }
}

/// A laser whose visible endpoint anticipates during warning, slams to full
/// length when armed (firing jerk and shake), holds, then retracts along a
/// downward parabola over `leave_time`.
#[derive(Clone, Copy, PartialEq, Eq, Structural, Debug)]
pub struct SlamLaser {
    pub start: Vec2i,
    pub end: Vec2i,
    pub thickness: i64,
    pub warning_time: i64,
    pub show_time: i64,
    pub current_time: i64,
    pub leave_time: i64,
    pub anticipation: i64,
    pub shown: bool,
    pub jerk: Vec2i,
    pub shake: i64,
}

/// Configured durations a slam laser's arithmetic relies on.
pub open spec fn slam_laser_wf(s: SlamLaser) -> bool {
    s.warning_time >= 1 && s.leave_time >= 1 && s.show_time >= 0
}

/// The slam interpolation factor (fixed-point, `1000` = full length): the
/// anticipation fraction during warning, a downward-opening parabola over the
/// final `leave_time`, and full length in between.
pub open spec fn slam_spec(s: SlamLaser) -> i64 {
    let total = sadd(s.warning_time, s.show_time);
    if s.current_time < s.warning_time {
        smuldiv(s.current_time, s.anticipation, s.warning_time)
    } else if s.current_time > ssub(total, s.leave_time) {
        let e = smuldiv(ssub(s.current_time, ssub(total, s.leave_time)), 1000, s.leave_time);
        ssub(1000, smuldiv(e, e, 1000))
    } else {
        1000
    }
}

/// The white-flash blend for the half-beat after arming.
pub open spec fn slam_color_spec(s: SlamLaser, normal: Rgba) -> Rgba {
    if s.warning_time <= s.current_time <= sadd(s.warning_time, 500) {
        let f = smuldiv(ssub(s.current_time, s.warning_time), COLOR_SCALE, 500);
        mix_spec(white_spec(), normal, f)
    } else {
        normal
    }
}

/// The laser state after one tick at lifecycle time `time`.
pub open spec fn slam_step_spec(s: SlamLaser, time: i64) -> SlamLaser {
    SlamLaser { current_time: time, shown: s.shown || time >= s.warning_time, ..s }
}

/// Whether this tick is the warning-to-armed transition that fires jerk and
/// shake.
pub open spec fn slam_fires(s: SlamLaser, time: i64) -> bool {
    !s.shown && time >= s.warning_time
}

/// Whether the laser is armed and its current visible segment touches the
/// player.
pub open spec fn slam_collides_spec(s: SlamLaser, player: Player) -> bool {
    let endpoint = vlerp(s.start, s.end, slam_spec(s));
    s.current_time >= s.warning_time && collide_cr_spec(
        rect_center_spec(s.start, endpoint),
        rect_size_spec(s.start, endpoint, s.thickness),
        vec_angle_spec(vminus(endpoint, s.start)),
        player.pos,
        player.rad,
    )
}

/// Whether the laser's scripted duration has elapsed.
pub open spec fn slam_should_kill_spec(s: SlamLaser) -> bool {
    s.current_time >= sadd(s.warning_time, s.show_time)
}

impl SlamLaser {
    /// A slam laser from `start` to `end`; `anticipation` is the fixed-point
    /// fraction of full length shown during warning. The default retract
    /// window is two beats.
    pub fn new(
        start: Vec2i,
        end: Vec2i,
        thickness: i64,
        warning_time: i64,
        show_time: i64,
        anticipation: i64,
        jerk: Vec2i,
        shake: i64,
    ) -> (r: SlamLaser)
        requires
            warning_time >= 1,
            show_time >= 0,
        ensures
            r == (SlamLaser {
                start,
                end,
                thickness,
                warning_time,
                show_time,
                jerk,
                shake,
                current_time: 0,
                shown: false,
                anticipation,
                leave_time: 2000,
            }),
            slam_laser_wf(r),
    {
        SlamLaser {
            start,
            end,
            thickness,
            warning_time,
            show_time,
            jerk,
            shake,
            current_time: 0,
            shown: false,
            anticipation,
            leave_time: 2000,
        }
    }

    /// The same laser with `leave_time` replaced.
    pub fn leave_time(self, new_time: i64) -> (r: SlamLaser)
        requires
            new_time >= 1,
        ensures
            r == (SlamLaser { leave_time: new_time, ..self }),
    {
        SlamLaser { leave_time: new_time, ..self }
    }

    /// The white-flash blend for the half-beat after arming.
    pub fn color(&self, normal: Rgba) -> (r: Rgba)
        ensures
            r == slam_color_spec(*self, normal),
    {
        if self.warning_time <= self.current_time && self.current_time <= sat_add(
            self.warning_time,
            500,
        ) {
            let f = mul_div(sat_sub(self.current_time, self.warning_time), COLOR_SCALE, 500);
            mix(white(), normal, f)
        } else {
            normal
        }
    }

    /// The slam interpolation factor at the current time.
    pub fn slam(&self) -> (r: i64)
        requires
            slam_laser_wf(*self),
        ensures
            r == slam_spec(*self),
    {
        let total = sat_add(self.warning_time, self.show_time);
        if self.current_time < self.warning_time {
            mul_div(self.current_time, self.anticipation, self.warning_time)
        } else if self.current_time > sat_sub(total, self.leave_time) {
            let e = mul_div(
                sat_sub(self.current_time, sat_sub(total, self.leave_time)),
                1000,
                self.leave_time,
            );
            sat_sub(1000, mul_div(e, e, 1000))
        } else {
            1000
        }
    }

    /// Whether the laser is armed and touches the player.
    pub fn collides(&self, player: Player) -> (r: bool)
        requires
            slam_laser_wf(*self),
        ensures
            r == slam_collides_spec(*self, player),
    {
        self.current_time >= self.warning_time && {
            let endpoint = self.start.lerp(self.end, self.slam());
            let (center, size, rot) = rectify_line(self.start, endpoint, self.thickness);
            collide_cr(center, size, rot, player.pos, player.rad)
        }
    }
}

} // verus!
