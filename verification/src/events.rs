use vstd::prelude::*;

use crate::color::Rgba;

verus! {

/// A flicker-start request: an immutable value naming the target entity, how
/// long the overlay lasts (in microseconds), and the flicker color. Built
/// once, never mutated after creation.
#[derive(Clone, Copy, Debug, PartialEq, Eq, Structural)]
pub struct FlickerStartEvent {
    /// Entity to apply the flicker to.
    pub entity: u64,

    /// The length in microseconds the flicker should last. Zero is allowed:
    /// the overlay is created and expires on the next tick.
    pub micros: u64,

    /// The flicker color that will be blended with the original color.
    pub color: Rgba,
}

impl FlickerStartEvent {
    pub fn builder(entity: u64) -> (r: FlickerStartEventBuilder)
        ensures
            r == (FlickerStartEventBuilder {
                entity,
                micros: 100_000,
                color: Rgba { red: 255, green: 255, blue: 255, alpha: 255 },
            }),
    {
        FlickerStartEventBuilder::new(entity)
    }
}

/// Builder for [`FlickerStartEvent`]; affects construction only, never a
/// request already built.
#[derive(Clone, Copy, Debug, PartialEq, Eq, Structural)]
pub struct FlickerStartEventBuilder {
    pub entity: u64,
    pub micros: u64,
    pub color: Rgba,
}

impl FlickerStartEventBuilder {
    /// Starts from the defaults: a tenth of a second, opaque white.
    pub fn new(entity: u64) -> (r: Self)
        ensures
            r == (FlickerStartEventBuilder {
                entity,
                micros: 100_000,
                color: Rgba { red: 255, green: 255, blue: 255, alpha: 255 },
            }),
    {
        FlickerStartEventBuilder { entity, micros: 100_000, color: Rgba::white() }
    }

    pub fn with_micros(self, micros: u64) -> (r: Self)
        ensures
            r == (FlickerStartEventBuilder { micros, ..self }),
    {
        FlickerStartEventBuilder { micros, ..self }
    }

    pub fn with_color(self, color: Rgba) -> (r: Self)
        ensures
            r == (FlickerStartEventBuilder { color, ..self }),
    {
        FlickerStartEventBuilder { color, ..self }
    }

    pub fn build(self) -> (r: FlickerStartEvent)
        ensures
            r == (FlickerStartEvent { entity: self.entity, micros: self.micros, color: self.color }),
    {
        FlickerStartEvent { entity: self.entity, micros: self.micros, color: self.color }
    }
}

} // verus!
