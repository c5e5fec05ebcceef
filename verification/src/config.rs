use vstd::prelude::*;

verus! {

/// Used to determine what to do when a flicker request is received for an
/// entity that is already in a flickering state.
#[derive(Clone, Copy, Debug, PartialEq, Eq, Structural)]
pub enum FlickerOverlapAction {
    /// Flicker requests targetted at entities that are already flickering
    /// will overwrite the existing flicker.
    Overwrite,
    /// Flicker requests targetted at entities that are already flickering
    /// will be ignored.
    Ignore,
}

impl Default for FlickerOverlapAction {
    fn default() -> (r: Self)
        ensures
            r == FlickerOverlapAction::Overwrite,
    {
        FlickerOverlapAction::Overwrite
    }
}

/// Process-wide configuration, read (never mutated) by the overlay lifecycle
/// on every incoming request.
#[derive(Clone, Copy, Debug, PartialEq, Eq, Structural)]
pub struct FlickerPluginConfig {
    /// See [`FlickerOverlapAction`].
    pub overlap_action: FlickerOverlapAction,
}

impl Default for FlickerPluginConfig {
    fn default() -> (r: Self)
        ensures
            r == (FlickerPluginConfig { overlap_action: FlickerOverlapAction::Overwrite }),
    {
        FlickerPluginConfig { overlap_action: FlickerOverlapAction::Overwrite }
    }
}

impl FlickerPluginConfig {
    /// Whether a request aimed at an already-flickering target is dropped.
    pub open spec fn spec_ignore_overlap(self) -> bool {
        self.overlap_action is Ignore
    }

    pub fn ignore_overlap(&self) -> (r: bool)
        ensures
            r == self.spec_ignore_overlap(),
    {
        match self.overlap_action {
            FlickerOverlapAction::Ignore => true,
            _ => false,
        }
    }
}

} // verus!
