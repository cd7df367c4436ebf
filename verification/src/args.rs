//! Configuration record handed to spawner invocations.
use vstd::prelude::*;

use crate::vec2::Vec2i;

verus! {

/// Optional spawn parameters passed by value into a spawner run. `time` is
/// mandatory at construction; the other fields start at neutral values and
/// are filled in builder style.
#[derive(Clone, Copy, PartialEq, Eq, Structural, Debug)]
pub struct ModifyArgs {
    pub time: i64,
    pub pos: Vec2i,
    pub vel: Vec2i,
    pub rad: i64,
    pub step: usize,
}

impl ModifyArgs {
    /// A record carrying only the spawn time.
    pub fn new(time: i64) -> (r: ModifyArgs)
        ensures
            r == (ModifyArgs {
                time,
                pos: Vec2i { x: 0, y: 0 },
                vel: Vec2i { x: 0, y: 0 },
                rad: 0,
                step: 0,
            }),
    {
        ModifyArgs { time, pos: Vec2i { x: 0, y: 0 }, vel: Vec2i { x: 0, y: 0 }, rad: 0, step: 0 }
    }

    /// The same record with `pos` replaced.
    pub fn pos(self, pos: Vec2i) -> (r: ModifyArgs)
        ensures
            r == (ModifyArgs { pos, ..self }),
    {
        ModifyArgs { pos, ..self }
    }

    /// The same record with `vel` replaced.
    pub fn vel(self, vel: Vec2i) -> (r: ModifyArgs)
        ensures
            r == (ModifyArgs { vel, ..self }),
    {
        ModifyArgs { vel, ..self }
    }

    /// The same record with `rad` replaced.
    pub fn rad(self, rad: i64) -> (r: ModifyArgs)
        ensures
            r == (ModifyArgs { rad, ..self }),
    {
        ModifyArgs { rad, ..self }
    }

    /// The same record with `step` replaced.
    pub fn step(self, step: usize) -> (r: ModifyArgs)
        ensures
            r == (ModifyArgs { step, ..self }),
    {
        ModifyArgs { step, ..self }
    }
}

} // verus!
