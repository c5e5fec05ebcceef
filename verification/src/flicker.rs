use vstd::prelude::*;

use crate::color::Rgba;
use crate::geometry::{Frac, FracPair};

verus! {

/// The parameters of an overlay's material: which image to sample (if any),
/// which normalized sub-rectangle of it, and the color to blend over every
/// pixel. The host's renderer turns one of these into a drawable material.
#[derive(Clone, Copy, Debug, PartialEq, Eq, Structural)]
pub struct FlickerMaterial {
    /// The image to sample, by handle; `None` for a flat-color overlay.
    pub source_image: Option<u64>,

    /// Normalized top-left corner of the sampled region: where in the sheet
    /// to start pulling pixels from.
    pub offset: FracPair,

    /// Normalized size of the sampled region.
    pub size: FracPair,

    /// Sheet size over region size, per axis.
    pub ratio: FracPair,

    /// The color to flicker; mixed with each sampled pixel.
    pub color: Rgba,
}

impl FlickerMaterial {
    /// Full-frame sampling: offset zero, size and ratio one.
    pub open spec fn spec_default_with_color(color: Rgba) -> FlickerMaterial {
        FlickerMaterial {
            source_image: None,
            offset: FracPair { x: Frac { num: 0, den: 1 }, y: Frac { num: 0, den: 1 } },
            size: FracPair { x: Frac { num: 1, den: 1 }, y: Frac { num: 1, den: 1 } },
            ratio: FracPair { x: Frac { num: 1, den: 1 }, y: Frac { num: 1, den: 1 } },
            color,
        }
    }

    /// Full-frame sampling with the given blend color and no source image.
    pub fn with_color(color: Rgba) -> (r: FlickerMaterial)
        ensures
            r == FlickerMaterial::spec_default_with_color(color),
    {
        FlickerMaterial {
            source_image: None,
            offset: FracPair { x: Frac::zero(), y: Frac::zero() },
            size: FracPair { x: Frac::one(), y: Frac::one() },
            ratio: FracPair { x: Frac::one(), y: Frac::one() },
            color,
        }
    }
}

impl Default for FlickerMaterial {
    fn default() -> (r: Self)
        ensures
            r == FlickerMaterial::spec_default_with_color(
                Rgba { red: 255, green: 255, blue: 255, alpha: 255 },
            ),
    {
        FlickerMaterial::with_color(Rgba::white())
    }
}

} // verus!
