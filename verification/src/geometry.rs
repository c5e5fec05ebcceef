use vstd::prelude::*;

verus! {

/// A size in whole pixels.
#[derive(Clone, Copy, Debug, PartialEq, Eq, Structural)]
pub struct Dims {
    pub width: u32,
    pub height: u32,
}

/// A sub-rectangle of a texture sheet: its top-left corner and its size,
/// in pixels. An atlas frame is one of these.
#[derive(Clone, Copy, Debug, PartialEq, Eq, Structural)]
pub struct Rect {
    pub x: u32,
    pub y: u32,
    pub width: u32,
    pub height: u32,
}

impl Rect {
    /// The degenerate frame substituted for an out-of-range atlas index.
    pub fn zero() -> (r: Rect)
        ensures
            r == (Rect { x: 0, y: 0, width: 0, height: 0 }),
    {
        Rect { x: 0, y: 0, width: 0, height: 0 }
    }
}

/// An exact ratio of two pixel counts. Normalized texture coordinates are
/// quotients of pixel sizes, so the engine keeps them as fractions rather
/// than rounding; the host divides when it uploads material parameters.
///
/// A zero denominator marks a degenerate value (a ratio against a zero-size
/// frame); the overlay is then visually degenerate but well defined.
#[derive(Clone, Copy, Debug, PartialEq, Eq, Structural)]
pub struct Frac {
    pub num: u32,
    pub den: u32,
}

impl Frac {
    pub fn new(num: u32, den: u32) -> (r: Frac)
        ensures
            r == (Frac { num, den }),
    {
        Frac { num, den }
    }

    /// Whole one, the neutral scale.
    pub fn one() -> (r: Frac)
        ensures
            r == (Frac { num: 1, den: 1 }),
    {
        Frac { num: 1, den: 1 }
    }

    /// Whole zero, the neutral offset.
    pub fn zero() -> (r: Frac)
        ensures
            r == (Frac { num: 0, den: 1 }),
    {
        Frac { num: 0, den: 1 }
    }
}

/// A pair of fractions, one per axis: a normalized vector within a texture.
#[derive(Clone, Copy, Debug, PartialEq, Eq, Structural)]
pub struct FracPair {
    pub x: Frac,
    pub y: Frac,
}

} // verus!
