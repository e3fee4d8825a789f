use vstd::prelude::*;

verus! {

/// Represents a collider, ie. a static impenetrable body for physic
/// entities.
#[derive(Debug, Clone, Copy, PartialEq, Eq, Structural)]
pub struct Collider;

} // verus!
