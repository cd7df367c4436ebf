//! Rectangle hazards: the placeable rectangle and the spinning rectangle.
use vstd::prelude::*;

use crate::angle::ANGLE_TURN;
use crate::collide::{collide_cr, collide_cr_spec};
use crate::color::{Rgba, mix, mix_spec, white, white_spec, COLOR_SCALE};
use crate::fix::{sadd, ssub, smuldiv, sat_add, sat_sub, mul_div};
use crate::player::Player;
use crate::vec2::{Vec2i, vscaled};

verus! {

/// An axis-placeable rectangle with a fixed rotation whose size follows the
/// grow / show / shrink envelope.
#[derive(Clone, Copy, PartialEq, Eq, Structural, Debug)]
pub struct RotatableRect {
    pub center: Vec2i,
    pub size: Vec2i,
    pub rot: i64,
    pub warning_time: i64,
    pub show_time: i64,
    pub current_time: i64,
    pub grow_time: i64,
}

/// Configured durations a rectangle's arithmetic relies on.
pub open spec fn rrect_wf(r: RotatableRect) -> bool {
    r.grow_time >= 1 && r.warning_time >= 0 && r.show_time >= 0 && r.warning_time + r.show_time
        >= 1
}

/// The animated size: optionally oversized (doubling down to nominal) during
/// the grow window, shrinking to zero over the final grow window, nominal in
/// between.
pub open spec fn rrect_size_spec(r: RotatableRect, allow_oversize: bool) -> Vec2i {
    let total = sadd(r.warning_time, r.show_time);
    if allow_oversize && r.warning_time <= r.current_time <= sadd(r.warning_time, r.grow_time) {
        let f = smuldiv(ssub(r.current_time, r.warning_time), 1000, r.grow_time);
        vscaled(r.size, ssub(2000, f), 1000)
    } else if r.current_time >= ssub(total, r.grow_time) {
        let f = smuldiv(ssub(total, r.current_time), 1000, r.grow_time);
        vscaled(r.size, f, 1000)
    } else {
        r.size
    }
}

/// The white-flash blend over the grow window.
pub open spec fn rrect_color_spec(r: RotatableRect, normal: Rgba) -> Rgba {
    if r.warning_time <= r.current_time <= sadd(r.warning_time, r.grow_time) {
        let f = smuldiv(ssub(r.current_time, r.warning_time), COLOR_SCALE, r.grow_time);
        mix_spec(white_spec(), normal, f)
    } else {
        normal
    }
}

/// The rectangle state after one tick at lifecycle time `time`.
pub open spec fn rrect_step_spec(r: RotatableRect, time: i64) -> RotatableRect {
    RotatableRect { current_time: time, ..r }
}

/// Whether the rectangle is armed and touches the player.
pub open spec fn rrect_collides_spec(r: RotatableRect, player: Player) -> bool {
    r.current_time >= r.warning_time && collide_cr_spec(
        r.center,
        rrect_size_spec(r, false),
        r.rot,
        player.pos,
        player.rad,
    )
}

/// Whether the rectangle's scripted duration has elapsed.
pub open spec fn rrect_should_kill_spec(r: RotatableRect) -> bool {
    r.current_time >= sadd(r.show_time, r.warning_time)
}

impl RotatableRect {
    /// The animated size; `allow_oversize` lets the grow window overshoot
    /// the nominal size.
    pub fn size(&self, allow_oversize: bool) -> (v: Vec2i)
        requires
            rrect_wf(*self),
        ensures
            v == rrect_size_spec(*self, allow_oversize),
    {
        let total = sat_add(self.warning_time, self.show_time);
        if allow_oversize && self.warning_time <= self.current_time && self.current_time
            <= sat_add(self.warning_time, self.grow_time) {
            let f = mul_div(sat_sub(self.current_time, self.warning_time), 1000, self.grow_time);
            self.size.scaled(sat_sub(2000, f), 1000)
        } else if self.current_time >= sat_sub(total, self.grow_time) {
            let f = mul_div(sat_sub(total, self.current_time), 1000, self.grow_time);
            self.size.scaled(f, 1000)
        } else {
            self.size
        }
    }

    /// The white-flash blend over the grow window.
    pub fn color(&self, normal: Rgba) -> (c: Rgba)
        requires
            rrect_wf(*self),
        ensures
            c == rrect_color_spec(*self, normal),
    {
        if self.warning_time <= self.current_time && self.current_time <= sat_add(
            self.warning_time,
            self.grow_time,
        ) {
            let f = mul_div(
                sat_sub(self.current_time, self.warning_time),
                COLOR_SCALE,
                self.grow_time,
            );
            mix(white(), normal, f)
        } else {
            normal
        }
    }

    /// Whether the rectangle is armed and touches the player.
    pub fn collides(&self, player: Player) -> (r: bool)
        requires
            rrect_wf(*self),
        ensures
            r == rrect_collides_spec(*self, player),
    {
        self.current_time >= self.warning_time && collide_cr(
            self.center,
            self.size(false),
            self.rot,
            player.pos,
            player.rad,
        )
    }
}

/// A rectangle that spins at `rpb` revolutions per beat of the animation
/// clock, so its rotation can be eased independently of lifecycle timing.
#[derive(Clone, Copy, PartialEq, Eq, Structural, Debug)]
pub struct RotatingRect {
    pub center: Vec2i,
    pub size: Vec2i,
    pub rot: i64,
    pub warning_time: i64,
    pub show_time: i64,
    pub current_time: i64,
    pub ease_time: i64,
    pub grow_time: i64,
    pub rpb: i64,
}

/// Configured durations a spinning rectangle's arithmetic relies on.
pub open spec fn rotrect_wf(r: RotatingRect) -> bool {
    r.grow_time >= 1 && r.warning_time >= 0 && r.show_time >= 0 && r.warning_time + r.show_time
        >= 1
}

/// The animated size: shrinking to zero over the final grow window, nominal
/// before.
pub open spec fn rotrect_size_spec(r: RotatingRect) -> Vec2i {
    let total = sadd(r.warning_time, r.show_time);
    if r.current_time >= ssub(total, r.grow_time) {
        let f = smuldiv(ssub(total, r.current_time), 1000, r.grow_time);
        vscaled(r.size, f, 1000)
    } else {
        r.size
    }
}

/// The current rotation: the base rotation plus `rpb` revolutions per beat
/// of animation time elapsed since the warning ended.
pub open spec fn rotrect_rot_spec(r: RotatingRect) -> i64 {
    sadd(r.rot, smuldiv(smuldiv(ssub(r.ease_time, r.warning_time), r.rpb, 1000), ANGLE_TURN, 1000))
}

/// The white-flash blend over the grow window.
pub open spec fn rotrect_color_spec(r: RotatingRect, normal: Rgba) -> Rgba {
    if r.warning_time <= r.current_time <= sadd(r.warning_time, r.grow_time) {
        let f = smuldiv(ssub(r.current_time, r.warning_time), COLOR_SCALE, r.grow_time);
        mix_spec(white_spec(), normal, f)
    } else {
        normal
    }
}

/// The rectangle state after one tick at lifecycle time `time` and animation
/// time `ease`.
pub open spec fn rotrect_step_spec(r: RotatingRect, time: i64, ease: i64) -> RotatingRect {
    RotatingRect { current_time: time, ease_time: ease, ..r }
}

/// Whether the rectangle is armed and touches the player (tested against the
/// negated current rotation, matching the drawn orientation).
pub open spec fn rotrect_collides_spec(r: RotatingRect, player: Player) -> bool {
    r.current_time >= r.warning_time && collide_cr_spec(
        r.center,
        rotrect_size_spec(r),
        ssub(0, rotrect_rot_spec(r)),
        player.pos,
        player.rad,
    )
}

/// Whether the rectangle's scripted duration has elapsed.
pub open spec fn rotrect_should_kill_spec(r: RotatingRect) -> bool {
    r.current_time >= sadd(r.show_time, r.warning_time)
}

impl Default for RotatingRect {
    /// A rectangle of zero size at the origin with an eight-beat warning, a
    /// quarter-beat grow window and a quarter revolution per beat.
    fn default() -> (r: RotatingRect)
        ensures
            r == (RotatingRect {
                center: Vec2i { x: 0, y: 0 },
                size: Vec2i { x: 0, y: 0 },
                rot: 0,
                warning_time: 8000,
                show_time: 0,
                current_time: 0,
                ease_time: 0,
                grow_time: 250,
                rpb: 250,
            }),
            rotrect_wf(r),
    {
        RotatingRect {
            center: Vec2i { x: 0, y: 0 },
            size: Vec2i { x: 0, y: 0 },
            rot: 0,
            warning_time: 8000,
            show_time: 0,
            current_time: 0,
            ease_time: 0,
            grow_time: 250,
            rpb: 250,
        }
    }
}

impl RotatingRect {
    /// The same rectangle with `center` replaced.
    pub fn center(self, center: Vec2i) -> (r: RotatingRect)
        ensures
            r == (RotatingRect { center, ..self }),
    {
        RotatingRect { center, ..self }
    }

    /// The same rectangle with `size` replaced.
    pub fn size(self, size: Vec2i) -> (r: RotatingRect)
        ensures
            r == (RotatingRect { size, ..self }),
    {
        RotatingRect { size, ..self }
    }

    /// The same rectangle with `rot` replaced.
    pub fn rot(self, rot: i64) -> (r: RotatingRect)
        ensures
            r == (RotatingRect { rot, ..self }),
    {
        RotatingRect { rot, ..self }
    }

    /// The same rectangle with `warning_time` replaced.
    pub fn warning_time(self, warning_time: i64) -> (r: RotatingRect)
        requires
            warning_time >= 0,
        ensures
            r == (RotatingRect { warning_time, ..self }),
    {
        RotatingRect { warning_time, ..self }
    }

    /// The same rectangle with `show_time` replaced.
    pub fn show_time(self, show_time: i64) -> (r: RotatingRect)
        requires
            show_time >= 0,
        ensures
            r == (RotatingRect { show_time, ..self }),
    {
        RotatingRect { show_time, ..self }
    }

    /// The same rectangle with `grow_time` replaced.
    pub fn grow_time(self, grow_time: i64) -> (r: RotatingRect)
        requires
            grow_time >= 1,
        ensures
            r == (RotatingRect { grow_time, ..self }),
    {
        RotatingRect { grow_time, ..self }
    }

    /// The same rectangle with `rpb` replaced.
    pub fn rpb(self, rpb: i64) -> (r: RotatingRect)
        ensures
            r == (RotatingRect { rpb, ..self }),
    {
        RotatingRect { rpb, ..self }
    }

    /// The animated size at the current time.
    pub fn get_size(&self) -> (v: Vec2i)
        requires
            rotrect_wf(*self),
        ensures
            v == rotrect_size_spec(*self),
    {
        let total = sat_add(self.warning_time, self.show_time);
        if self.current_time >= sat_sub(total, self.grow_time) {
            let f = mul_div(sat_sub(total, self.current_time), 1000, self.grow_time);
            self.size.scaled(f, 1000)
        } else {
            self.size
        }
    }

    /// The white-flash blend over the grow window.
    pub fn color(&self, normal: Rgba) -> (c: Rgba)
        requires
            rotrect_wf(*self),
        ensures
            c == rotrect_color_spec(*self, normal),
    {
        if self.warning_time <= self.current_time && self.current_time <= sat_add(
            self.warning_time,
            self.grow_time,
        ) {
            let f = mul_div(
                sat_sub(self.current_time, self.warning_time),
                COLOR_SCALE,
                self.grow_time,
            );
            mix(white(), normal, f)
        } else {
            normal
        }
    }

    /// The current rotation, driven by the animation clock.
    pub fn get_rot(&self) -> (r: i64)
        ensures
            r == rotrect_rot_spec(*self),
    {
        sat_add(
            self.rot,
            mul_div(
                mul_div(sat_sub(self.ease_time, self.warning_time), self.rpb, 1000),
                ANGLE_TURN,
                1000,
            ),
        )
    }

    /// Whether the rectangle is armed and touches the player.
    pub fn collides(&self, player: Player) -> (r: bool)
        requires
            rotrect_wf(*self),
        ensures
            r == rotrect_collides_spec(*self, player),
    {
        self.current_time >= self.warning_time && collide_cr(
            self.center,
            self.get_size(),
            sat_sub(0, self.get_rot()),
            player.pos,
            player.rad,
        )
    }
}

} // verus!
