use vstd::prelude::*;

verus! {

/// Label for the per-frame work that edits post-processing effects; effect
/// updates are ordered after it.
#[derive(Clone, Copy, Debug, Default, PartialEq, Eq, Hash, Structural)]
pub struct VFXChangeSystemSet;

/// Marks a camera that renders a post-processing effect.
#[derive(Clone, Copy, Debug, Default, PartialEq, Eq, Hash, Structural)]
pub struct EffectCamera;

} // verus!
