//! Fixed-point colors.
//!
//! A channel value of `COLOR_SCALE` means full intensity; drawing backends
//! rescale to their own range. Obstacles only ever blend a caller-supplied
//! base color toward white or scale its intensity, so those two operations
//! are all this module provides.
use vstd::prelude::*;

use crate::fix::{sat64, sat_add, sat_sub, mul_div, tdiv};

verus! {

/// Number of fixed-point units of a fully saturated color channel.
pub const COLOR_SCALE: i64 = 1000;

/// An RGBA color with fixed-point channels (`COLOR_SCALE` = full intensity).
#[derive(Clone, Copy, PartialEq, Eq, Structural, Debug)]
pub struct Rgba {
    pub r: i64,
    pub g: i64,
    pub b: i64,
    pub a: i64,
}

/// One channel of `mix`: `a` moved toward `b` by the fraction `f / COLOR_SCALE`.
pub open spec fn mix_chan(a: int, b: int, f: int) -> int {
    sat64(a + sat64(tdiv(sat64(b - a) * f, COLOR_SCALE as int)))
}

/// One channel of `cmul`: `c` scaled by the fraction `f / COLOR_SCALE`.
pub open spec fn scale_chan(c: int, f: int) -> int {
    sat64(tdiv(c * f, COLOR_SCALE as int))
}

/// Linear blend of `from` toward `to` by `f / COLOR_SCALE`, at the
/// specification level.
pub open spec fn mix_spec(from: Rgba, to: Rgba, f: i64) -> Rgba {
    Rgba {
        r: mix_chan(from.r as int, to.r as int, f as int) as i64,
        g: mix_chan(from.g as int, to.g as int, f as int) as i64,
        b: mix_chan(from.b as int, to.b as int, f as int) as i64,
        a: mix_chan(from.a as int, to.a as int, f as int) as i64,
    }
}

/// The color channels scaled by `f / COLOR_SCALE` with alpha kept, at the
/// specification level.
pub open spec fn cmul_spec(c: Rgba, f: i64) -> Rgba {
    Rgba {
        r: scale_chan(c.r as int, f as int) as i64,
        g: scale_chan(c.g as int, f as int) as i64,
        b: scale_chan(c.b as int, f as int) as i64,
        a: c.a,
    }
}

/// The alpha channel scaled by `f / COLOR_SCALE` with color kept, at the
/// specification level.
pub open spec fn acmul_spec(c: Rgba, f: i64) -> Rgba {
    Rgba { r: c.r, g: c.g, b: c.b, a: scale_chan(c.a as int, f as int) as i64 }
}

/// Fully opaque white, at the specification level.
pub open spec fn white_spec() -> Rgba {
    Rgba { r: COLOR_SCALE, g: COLOR_SCALE, b: COLOR_SCALE, a: COLOR_SCALE }
}

/// Fully opaque white.
pub fn white() -> (c: Rgba)
    ensures
        c == (Rgba { r: COLOR_SCALE, g: COLOR_SCALE, b: COLOR_SCALE, a: COLOR_SCALE }),
{
    Rgba { r: COLOR_SCALE, g: COLOR_SCALE, b: COLOR_SCALE, a: COLOR_SCALE }
}

fn mix_one(a: i64, b: i64, f: i64) -> (r: i64)
    ensures
        r as int == mix_chan(a as int, b as int, f as int),
{
    sat_add(a, mul_div(sat_sub(b, a), f, COLOR_SCALE))
}

/// Linear blend of `from` toward `to` by the fraction `f / COLOR_SCALE`.
pub fn mix(from: Rgba, to: Rgba, f: i64) -> (c: Rgba)
    ensures
        c.r as int == mix_chan(from.r as int, to.r as int, f as int),
        c.g as int == mix_chan(from.g as int, to.g as int, f as int),
        c.b as int == mix_chan(from.b as int, to.b as int, f as int),
        c.a as int == mix_chan(from.a as int, to.a as int, f as int),
        c == mix_spec(from, to, f),
{
    Rgba {
        r: mix_one(from.r, to.r, f),
        g: mix_one(from.g, to.g, f),
        b: mix_one(from.b, to.b, f),
        a: mix_one(from.a, to.a, f),
    }
}

/// The color channels scaled by `f / COLOR_SCALE`; the alpha channel is kept.
pub fn cmul(c: Rgba, f: i64) -> (r: Rgba)
    ensures
        r.r as int == scale_chan(c.r as int, f as int),
        r.g as int == scale_chan(c.g as int, f as int),
        r.b as int == scale_chan(c.b as int, f as int),
        r.a == c.a,
        r == cmul_spec(c, f),
{
    Rgba {
        r: mul_div(c.r, f, COLOR_SCALE),
        g: mul_div(c.g, f, COLOR_SCALE),
        b: mul_div(c.b, f, COLOR_SCALE),
        a: c.a,
    }
}

/// The alpha channel scaled by `f / COLOR_SCALE`; the color channels are kept.
pub fn acmul(c: Rgba, f: i64) -> (r: Rgba)
    ensures
        r.a as int == scale_chan(c.a as int, f as int),
        r.r == c.r,
        r.g == c.g,
        r.b == c.b,
        r == acmul_spec(c, f),
{
    Rgba { r: c.r, g: c.g, b: c.b, a: mul_div(c.a, f, COLOR_SCALE) }
}

} // verus!
