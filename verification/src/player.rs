//! The player capsule, as the core reads it.
use vstd::prelude::*;

use crate::fix::POS_SCALE;
use crate::vec2::Vec2i;

verus! {

/// The player. The core only reads `pos` and `rad` for collision tests; the
/// remaining fields (speed, dash charge, invulnerability seconds) belong to
/// the owning game loop and ride along untouched.
#[derive(Clone, Copy, PartialEq, Eq, Structural, Debug)]
pub struct Player {
    pub pos: Vec2i,
    pub rad: i64,
    pub pps: i64,
    pub dash: i64,
    pub isecs: i64,
}

impl Default for Player {
    /// A player of radius five pixels at the origin; the owning loop places
    /// it at the screen center it knows about.
    fn default() -> (r: Player)
        ensures
            r == (Player {
                pos: Vec2i { x: 0, y: 0 },
                rad: (5 * POS_SCALE) as i64,
                pps: (100 * POS_SCALE) as i64,
                dash: 0,
                isecs: 0,
            }),
    {
        Player {
            pos: Vec2i { x: 0, y: 0 },
            rad: 5 * POS_SCALE,
            pps: 100 * POS_SCALE,
            dash: 0,
            isecs: 0,
        }
    }
}

} // verus!
