//! Marker components that a scene attaches to entities.

use vstd::prelude::*;

verus! {

/// Marks entities that carry a point light. Geometry with this tag is drawn
/// as a light marker, not as an opaque model.
#[derive(Clone, Copy, Debug, PartialEq, Eq, Structural)]
pub struct LightTag;

/// Marks entities that the user has picked.
#[derive(Clone, Copy, Debug, PartialEq, Eq, Structural)]
pub struct Selected;

} // verus!
