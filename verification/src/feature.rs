use vstd::prelude::*;

verus! {

/// The topological element of a convex polyhedron that a point lies on.
#[derive(Clone, Copy, Debug, PartialEq, Eq, Structural)]
pub enum FeatureId {
    Face(usize),
    Edge(usize),
    Vertex(usize),
    /// No feature is known. A contact is never built on it.
    Unknown,
}

} // verus!
