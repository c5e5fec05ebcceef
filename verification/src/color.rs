use vstd::prelude::*;

verus! {

/// An RGBA color, one byte per channel. The engine never computes on colors:
/// a flicker color is carried through unchanged from the request to the
/// overlay material, where the host's renderer blends it.
#[derive(Clone, Copy, Debug, PartialEq, Eq, Structural)]
pub struct Rgba {
    pub red: u8,
    pub green: u8,
    pub blue: u8,
    pub alpha: u8,
}

impl Rgba {
    /// Fully opaque white, the default flicker color.
    pub fn white() -> (r: Rgba)
        ensures
            r == (Rgba { red: 255, green: 255, blue: 255, alpha: 255 }),
    {
        Rgba { red: 255, green: 255, blue: 255, alpha: 255 }
    }
}

impl Default for Rgba {
    fn default() -> (r: Self)
        ensures
            r == (Rgba { red: 255, green: 255, blue: 255, alpha: 255 }),
    {
        Rgba { red: 255, green: 255, blue: 255, alpha: 255 }
    }
}

} // verus!
