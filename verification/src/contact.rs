use crate::feature::FeatureId;
use crate::math::{Point, Vector};
use vstd::prelude::*;

verus! {

/// One contact between two shapes: a point on each in world space, the normal
/// from the first shape to the second, and the depth, positive where the
/// shapes overlap.
#[derive(Clone, Copy, Debug, PartialEq, Eq, Structural)]
pub struct Contact {
    pub world1: Point,
    pub world2: Point,
    pub normal: Vector,
    pub depth: i64,
}

impl Contact {
    /// The same contact seen from the second shape: the points exchanged, the
    /// normal turned round.
    pub open spec fn flipped(self) -> Contact {
        Contact {
            world1: self.world2,
            world2: self.world1,
            normal: self.normal.opposite(),
            depth: self.depth,
        }
    }

    pub fn new(world1: Point, world2: Point, normal: Vector, depth: i64) -> (c: Contact)
        ensures
            c == (Contact { world1, world2, normal, depth }),
    {
        Contact { world1, world2, normal, depth }
    }
}

/// The outward normals that are valid at a feature, by the directions that
/// span them; none for a smooth shape.
#[derive(Clone, Debug)]
pub struct PolyhedralCone {
    pub generators: Vec<Vector>,
}

impl PolyhedralCone {
    /// The cone without a generator.
    pub fn new() -> (c: PolyhedralCone)
        ensures
            c.generators@.len() == 0,
    {
        PolyhedralCone { generators: Vec::new() }
    }
}

/// What a shape looks like round the anchor of a contact.
#[derive(Clone, Debug)]
pub enum LocalShape {
    /// A point with the cone of its normals.
    Point(PolyhedralCone),
    /// A line along the given direction, with the cone that its two faces span.
    Line(Vector, PolyhedralCone),
    /// A plane with its normal.
    Plane(Vector),
}

/// One side of a contact in the frame of its own shape.
#[derive(Clone, Debug)]
pub struct Anchor {
    pub feature: FeatureId,
    pub local: Point,
    pub shape: LocalShape,
    /// The radius by which the shape is rounded about the anchor.
    pub dilation: i64,
}

impl Anchor {
    /// Whether this is the anchor of a ball of the given radius: its centre,
    /// with no normal singled out, dilated by the radius.
    pub open spec fn is_ball(self, radius: i64) -> bool {
        &&& self.feature == FeatureId::Face(0)
        &&& self.local == (Point { x: 0, y: 0, z: 0 })
        &&& self.dilation == radius
        &&& match self.shape {
            LocalShape::Point(cone) => cone.generators@.len() == 0,
            _ => false,
        }
    }
}

/// How a contact is anchored to each of its two shapes.
#[derive(Clone, Debug)]
pub struct ContactKinematic {
    pub anchor1: Anchor,
    pub anchor2: Anchor,
}

} // verus!
