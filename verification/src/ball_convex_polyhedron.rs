use crate::contact::{Anchor, Contact, ContactKinematic, LocalShape, PolyhedralCone};
use crate::feature::FeatureId;
use crate::id_allocator::IdAllocator;
use crate::manifold::{ContactManifold, MANIFOLD_CAPACITY};
use crate::math::{bounded, is_direction, scale, scaled, scaled_is_bounded, Point, Vector};
use vstd::prelude::*;

verus! {

/// The displacement from a ball's centre to its projection on a polyhedron,
/// normalised: the unit direction and the length.
#[derive(Clone, Copy, Debug, PartialEq, Eq, Structural)]
pub struct Approach {
    pub direction: Vector,
    pub distance: i64,
}

/// What a convex polyhedron answers when it is asked for the point of its
/// boundary that is closest to a ball's centre.
#[derive(Clone, Debug)]
pub struct SurfaceProbe {
    /// The closest boundary point, in world space.
    pub point: Point,
    /// Whether the centre lies inside the polyhedron.
    pub is_inside: bool,
    /// The feature that the closest point lies on.
    pub feature: FeatureId,
    /// The closest point in the polyhedron's own frame.
    pub local: Point,
    /// The normalised displacement from the centre to the closest point;
    /// `None` where the two are too close to tell a direction.
    pub approach: Option<Approach>,
    /// The normal cone of the feature.
    pub normals: PolyhedralCone,
    /// The unit direction of the feature where it is an edge.
    pub edge_direction: Vector,
}

/// A shape as the generator sees it: what its capability queries answered.
#[derive(Clone, Debug)]
pub enum Shape {
    /// A ball, by its centre in world space and its radius.
    Ball { center: Point, radius: i64 },
    /// A convex polyhedron, by its answer for the centre of the other shape.
    ConvexPolyhedron(SurfaceProbe),
    /// Any other shape.
    Other,
}

/// How far apart two shapes may be and still get a contact.
#[derive(Clone, Copy, Debug, PartialEq, Eq, Structural)]
pub struct ContactPrediction {
    pub linear: i64,
}

impl SurfaceProbe {
    /// Whether the probe's numbers are ones the generator can compute with.
    pub open spec fn in_range(self) -> bool {
        match self.approach {
            Some(a) => is_direction(a.direction) && bounded(a.distance),
            None => true,
        }
    }

    /// The depth of the contact with a ball of the given radius: past the
    /// surface by distance plus radius where the centre is inside, and radius
    /// minus distance where it is outside.
    pub open spec fn depth(self, radius: i64) -> int
        recommends
            self.approach.is_some(),
    {
        if self.is_inside {
            self.approach.unwrap().distance + radius
        } else {
            radius - self.approach.unwrap().distance
        }
    }

    /// The normal from the ball to the polyhedron: along the displacement where
    /// the centre is outside, against it where it is inside.
    pub open spec fn normal(self) -> Vector
        recommends
            self.approach.is_some(),
    {
        if self.is_inside {
            self.approach.unwrap().direction.opposite()
        } else {
            self.approach.unwrap().direction
        }
    }

    /// Whether a contact is made: the displacement has a direction, and the
    /// shapes are no further apart than `margin`.
    pub open spec fn admitted(self, radius: i64, margin: i64) -> bool {
        self.approach.is_some() && self.depth(radius) >= -margin
    }

    /// Whether a contact can be anchored on the probe's feature.
    pub open spec fn anchorable(self) -> bool {
        match self.feature {
            FeatureId::Face(_) => self.normals.generators@.len() > 0,
            FeatureId::Unknown => false,
            _ => true,
        }
    }

    /// The contact with the ball of the given centre and radius, the ball
    /// first: the ball's point lies a radius from the centre along the normal.
    pub open spec fn contact(self, center: Point, radius: i64) -> Contact
        recommends
            self.approach.is_some(),
    {
        let n = self.normal();
        Contact {
            world1: Point {
                x: (center.x + scaled(n.x, radius)) as i64,
                y: (center.y + scaled(n.y, radius)) as i64,
                z: (center.z + scaled(n.z, radius)) as i64,
            },
            world2: self.point,
            normal: n,
            depth: self.depth(radius) as i64,
        }
    }

    /// The anchor of the contact on the polyhedron.
    pub open spec fn anchor(self) -> Anchor {
        Anchor {
            feature: self.feature,
            local: self.local,
            shape: match self.feature {
                FeatureId::Face(_) => LocalShape::Plane(self.normals.generators@[0]),
                FeatureId::Edge(_) => LocalShape::Line(self.edge_direction, self.normals),
                _ => LocalShape::Point(self.normals),
            },
            dilation: 0,
        }
    }
}

/// The contact between a ball and a polyhedron, as `flip` orders the two.
pub open spec fn oriented(c: Contact, flip: bool) -> Contact {
    if flip {
        c.flipped()
    } else {
        c
    }
}

/// Whether `k` anchors a contact on the ball of the given radius and on the
/// probed polyhedron, as `flip` orders the two.
pub open spec fn anchors(k: ContactKinematic, radius: i64, probe: SurfaceProbe, flip: bool) -> bool {
    if flip {
        k.anchor2.is_ball(radius) && k.anchor1 == probe.anchor()
    } else {
        k.anchor1.is_ball(radius) && k.anchor2 == probe.anchor()
    }
}

/// Builds the contact between the ball of the given centre and radius and the
/// probed polyhedron, where they are no further apart than `margin`.
pub fn synthesize(center: Point, radius: i64, probe: SurfaceProbe, margin: i64, flip: bool) -> (r: Option<
    (Contact, ContactKinematic),
>)
    requires
        center.bounded(),
        bounded(radius),
        probe.in_range(),
        probe.admitted(radius, margin) ==> probe.anchorable(),
    ensures
        r.is_some() == probe.admitted(radius, margin),
        r.is_some() ==> r.unwrap().0 == oriented(probe.contact(center, radius), flip),
        r.is_some() ==> anchors(r.unwrap().1, radius, probe, flip),
{
    let approach: Approach = match probe.approach {
        Some(a) => a,
        None => {
            return None;
        },
    };
    let depth: i64 = if probe.is_inside {
        approach.distance + radius
    } else {
        radius - approach.distance
    };
    let normal: Vector = if probe.is_inside {
        approach.direction.negated()
    } else {
        approach.direction
    };
    if (depth as i128) + (margin as i128) < 0 {
        return None;
    }
    let world1: Point = Point {
        x: center.x + scale(normal.x, radius),
        y: center.y + scale(normal.y, radius),
        z: center.z + scale(normal.z, radius),
    };
    let world2: Point = probe.point;
    let ball: Anchor = Anchor {
        feature: FeatureId::Face(0),
        local: Point::origin(),
        shape: LocalShape::Point(PolyhedralCone::new()),
        dilation: radius,
    };
    let ghost seen = probe;
    let feature: FeatureId = probe.feature;
    let shape: LocalShape = match feature {
        FeatureId::Face(_) => LocalShape::Plane(probe.normals.generators[0]),
        FeatureId::Edge(_) => LocalShape::Line(probe.edge_direction, probe.normals),
        _ => LocalShape::Point(probe.normals),
    };
    let polyhedron: Anchor = Anchor { feature, local: probe.local, shape, dilation: 0 };
    assert(polyhedron == seen.anchor());
    if !flip {
        let contact: Contact = Contact::new(world1, world2, normal, depth);
        Some((contact, ContactKinematic { anchor1: ball, anchor2: polyhedron }))
    } else {
        let contact: Contact = Contact::new(world2, world1, normal.negated(), depth);
        Some((contact, ContactKinematic { anchor1: polyhedron, anchor2: ball }))
    }
}

/// Between a ball and a polyhedron that are outside each other and within the
/// margin there is a contact: its depth is the radius less the distance, its
/// normal the direction from the ball's centre to the polyhedron, and its two
/// points are the closest point of the polyhedron and the point a radius from
/// the centre along the normal.
pub proof fn contact_of_a_ball_outside(center: Point, radius: i64, probe: SurfaceProbe, margin: i64)
    requires
        !probe.is_inside,
        probe.approach.is_some(),
        probe.approach.unwrap().distance - radius <= margin,
    ensures
        probe.admitted(radius, margin),
        probe.contact(center, radius).normal == probe.approach.unwrap().direction,
        probe.contact(center, radius).world2 == probe.point,
        center.bounded() && bounded(radius) && probe.in_range() ==> {
            let c = probe.contact(center, radius);
            let n = probe.approach.unwrap().direction;
            &&& c.depth == radius - probe.approach.unwrap().distance
            &&& c.world1.x - center.x == scaled(n.x, radius)
            &&& c.world1.y - center.y == scaled(n.y, radius)
            &&& c.world1.z - center.z == scaled(n.z, radius)
        },
{
    if center.bounded() && bounded(radius) && probe.in_range() {
        let n = probe.approach.unwrap().direction;
        scaled_is_bounded(n.x, radius);
        scaled_is_bounded(n.y, radius);
        scaled_is_bounded(n.z, radius);
    }
}

/// Registering the generator for the other order of the two shapes gives the
/// same contact seen from the other side: the points exchanged, the normal
/// turned round, the depth as it was. Seen twice from the other side, a contact
/// is itself again.
pub proof fn flip_exchanges_the_sides(center: Point, radius: i64, probe: SurfaceProbe)
    requires
        probe.approach.is_some(),
        probe.in_range(),
    ensures
        oriented(probe.contact(center, radius), true).world1 == oriented(
            probe.contact(center, radius),
            false,
        ).world2,
        oriented(probe.contact(center, radius), true).world2 == oriented(
            probe.contact(center, radius),
            false,
        ).world1,
        oriented(probe.contact(center, radius), true).normal == oriented(
            probe.contact(center, radius),
            false,
        ).normal.opposite(),
        oriented(probe.contact(center, radius), true).depth == oriented(
            probe.contact(center, radius),
            false,
        ).depth,
        oriented(probe.contact(center, radius), true).flipped() == probe.contact(center, radius),
{
}


/// Whether the two shapes are a ball and a convex polyhedron, in that order.
pub open spec fn matched(ball_side: Shape, polyhedron_side: Shape) -> bool {
    ball_side is Ball && polyhedron_side is ConvexPolyhedron
}

/// Whether the generator can compute with what the two shapes hold, and anchor
/// the contact that they make.
pub open spec fn workable(ball_side: Shape, polyhedron_side: Shape, margin: i64) -> bool {
    match (ball_side, polyhedron_side) {
        (Shape::Ball { center, radius }, Shape::ConvexPolyhedron(probe)) => {
            &&& center.bounded()
            &&& bounded(radius)
            &&& probe.in_range()
            &&& probe.admitted(radius, margin) ==> probe.anchorable()
        },
        _ => true,
    }
}

/// Whether `m` holds what a step on the two shapes leaves in it: the one
/// contact between the ball and the polyhedron where they are within the
/// margin, and nothing where they are not.
pub open spec fn holds_step(
    m: ContactManifold,
    ball_side: Shape,
    polyhedron_side: Shape,
    margin: i64,
    flip: bool,
) -> bool {
    match (ball_side, polyhedron_side) {
        (Shape::Ball { center, radius }, Shape::ConvexPolyhedron(probe)) => {
            if probe.admitted(radius, margin) {
                &&& m.contacts().len() == 1
                &&& m.contacts()[0].contact == oriented(probe.contact(center, radius), flip)
                &&& anchors(m.contacts()[0].kinematic, radius, probe, flip)
            } else {
                m.contacts().len() == 0
            }
        },
        _ => true,
    }
}

/// The contact generator for a ball and a convex polyhedron. It keeps the
/// manifold of its pair of shapes from step to step.
#[derive(Clone, Debug)]
pub struct BallConvexPolyhedronManifoldGenerator {
    flip: bool,
    contact_manifold: ContactManifold,
}

impl BallConvexPolyhedronManifoldGenerator {
    /// Whether the ball is the second shape of the pair.
    pub closed spec fn flip(&self) -> bool {
        self.flip
    }

    /// The manifold of the pair.
    pub closed spec fn manifold(&self) -> ContactManifold {
        self.contact_manifold
    }

    /// Whether the manifold is within its capacity.
    pub open spec fn wf(&self) -> bool {
        self.manifold().wf()
    }

    /// Creates the generator of a pair whose second shape is the ball if `flip`
    /// is set, and whose first shape is the ball if it is not.
    pub fn new(flip: bool) -> (g: Self)
        ensures
            g.flip() == flip,
            g.wf(),
            g.manifold().contacts().len() == 0,
            g.manifold().cache().len() == 0,
            g.manifold().capacity_spec() == MANIFOLD_CAPACITY,
            forall|pool: IdAllocator| pool.wf() ==> #[trigger] g.manifold().owns_identities(pool),
    {
        BallConvexPolyhedronManifoldGenerator {
            flip,
            contact_manifold: ContactManifold::new(MANIFOLD_CAPACITY),
        }
    }

    /// Whether the ball is the second shape of the pair.
    pub fn is_flipped(&self) -> (f: bool)
        ensures
            f == self.flip(),
    {
        self.flip
    }

    fn do_update(
        &mut self,
        ball_side: Shape,
        polyhedron_side: Shape,
        prediction: &ContactPrediction,
        id_alloc: &mut IdAllocator,
        flip: bool,
    ) -> (applies: bool)
        requires
            old(self).wf(),
            old(id_alloc).has_room(),
            workable(ball_side, polyhedron_side, prediction.linear),
        ensures
            final(self).wf(),
            final(self).flip() == old(self).flip(),
            final(self).manifold().subshape_ids() == old(self).manifold().subshape_ids(),
            final(self).manifold().capacity_spec() == old(self).manifold().capacity_spec(),
            applies == matched(ball_side, polyhedron_side),
            old(self).manifold().owns_identities(*old(id_alloc)) ==> {
                &&& final(self).manifold().owns_identities(*final(id_alloc))
                &&& old(self).manifold().spares(*old(id_alloc), *final(id_alloc))
            },
            !applies ==> final(self).manifold() == old(self).manifold() && *final(id_alloc) == *old(id_alloc),
            applies ==> holds_step(
                final(self).manifold(),
                ball_side,
                polyhedron_side,
                prediction.linear,
                flip,
            ),
    {
        match (ball_side, polyhedron_side) {
            (Shape::Ball { center, radius }, Shape::ConvexPolyhedron(probe)) => {
                self.contact_manifold.save_cache_and_clear(id_alloc);
                match synthesize(center, radius, probe, prediction.linear, flip) {
                    Some((contact, kinematic)) => {
                        let _ = self.contact_manifold.push(contact, kinematic, id_alloc);
                    },
                    None => {},
                }
                true
            },
            _ => false,
        }
    }

    /// Runs one step on the pair of shapes `a` and `b`, which are the parts
    /// `id1` and `id2` of their compounds. Returns whether the pair is one for
    /// this generator: a ball and a convex polyhedron in the order it was made
    /// for. If it is, the manifold then holds the contact of this step, or
    /// nothing where the shapes are further apart than the margin or the centre
    /// lies on the surface; if it is not, the contacts stay as they were.
    pub fn update(
        &mut self,
        id1: usize,
        a: Shape,
        id2: usize,
        b: Shape,
        prediction: &ContactPrediction,
        id_alloc: &mut IdAllocator,
    ) -> (applies: bool)
        requires
            old(self).wf(),
            old(id_alloc).has_room(),
            !old(self).flip() ==> workable(a, b, prediction.linear),
            old(self).flip() ==> workable(b, a, prediction.linear),
        ensures
            final(self).wf(),
            final(self).flip() == old(self).flip(),
            final(self).manifold().subshape_ids() == (id1, id2),
            old(self).manifold().owns_identities(*old(id_alloc)) ==> {
                &&& final(self).manifold().owns_identities(*final(id_alloc))
                &&& old(self).manifold().spares(*old(id_alloc), *final(id_alloc))
            },
            final(self).manifold().capacity_spec() == old(self).manifold().capacity_spec(),
            applies == if old(self).flip() {
                matched(b, a)
            } else {
                matched(a, b)
            },
            !applies ==> final(self).manifold().contacts() == old(self).manifold().contacts()
                && final(self).manifold().cache() == old(self).manifold().cache()
                && *final(id_alloc) == *old(id_alloc),
            applies && !old(self).flip() ==> holds_step(
                final(self).manifold(),
                a,
                b,
                prediction.linear,
                false,
            ),
            applies && old(self).flip() ==> holds_step(
                final(self).manifold(),
                b,
                a,
                prediction.linear,
                true,
            ),
    {
        self.contact_manifold.set_subshape_id1(id1);
        assert(old(self).manifold().owns_identities(*id_alloc)
            ==> self.contact_manifold.owns_identities(*id_alloc));
        self.contact_manifold.set_subshape_id2(id2);
        assert(old(self).manifold().owns_identities(*id_alloc)
            ==> self.contact_manifold.owns_identities(*id_alloc));
        if !self.flip {
            self.do_update(a, b, prediction, id_alloc, false)
        } else {
            self.do_update(b, a, prediction, id_alloc, true)
        }
    }

    /// The number of contacts in the manifold.
    pub fn num_contacts(&self) -> (n: usize)
        ensures
            n == self.manifold().contacts().len(),
    {
        self.contact_manifold.len()
    }

    /// Appends the manifold to `out`, unless it is empty.
    pub fn contacts<'a>(&'a self, out: &mut Vec<&'a ContactManifold>)
        ensures
            self.manifold().contacts().len() == 0 ==> final(out)@ == old(out)@,
            self.manifold().contacts().len() != 0 ==> final(out)@.len() == old(out)@.len() + 1
                && final(out)@.subrange(0, old(out)@.len() as int) == old(out)@
                && *final(out)@.last() == self.manifold(),
    {
        if self.contact_manifold.len() != 0 {
            out.push(&self.contact_manifold)
        }
    }
}

} // verus!
