use narrow_contacts::ball_convex_polyhedron::{
    synthesize, Approach, BallConvexPolyhedronManifoldGenerator, ContactPrediction, Shape,
    SurfaceProbe,
};
use narrow_contacts::contact::{LocalShape, PolyhedralCone};
use narrow_contacts::feature::FeatureId;
use narrow_contacts::id_allocator::IdAllocator;
use narrow_contacts::manifold::{ContactManifold, MANIFOLD_CAPACITY};
use narrow_contacts::math::{scale, Point, Vector, ONE};

fn cone(generators: Vec<Vector>) -> PolyhedralCone {
    PolyhedralCone { generators }
}

fn probe_at(distance: i64, is_inside: bool, feature: FeatureId) -> SurfaceProbe {
    SurfaceProbe {
        point: Point::new(distance, 0, 0),
        is_inside,
        feature,
        local: Point::new(-ONE, 5, 6),
        approach: Some(Approach { direction: Vector::new(ONE, 0, 0), distance }),
        normals: cone(vec![Vector::new(-ONE, 0, 0), Vector::new(0, ONE, 0)]),
        edge_direction: Vector::new(0, 0, ONE),
    }
}

fn ball(radius: i64) -> Shape {
    Shape::Ball { center: Point::origin(), radius }
}

fn only_contact(g: &BallConvexPolyhedronManifoldGenerator) -> &ContactManifold {
    let mut out: Vec<&ContactManifold> = Vec::new();
    g.contacts(&mut out);
    assert_eq!(out.len(), 1);
    out[0]
}

#[test]
fn scale_is_exact_and_rounds_toward_zero() {
    assert_eq!(scale(ONE, 12345), 12345);
    assert_eq!(scale(-ONE, 12345), -12345);
    assert_eq!(scale(ONE / 2, 7), 3);
    assert_eq!(scale(-(ONE / 2), 7), -3);
    assert_eq!(scale(0, 7), 0);
    assert_eq!(scale(1, 1), 0);
    assert_eq!(scale(-1, 1), 0);
}

#[test]
fn ball_outside_within_margin_gets_one_contact() {
    let mut ids = IdAllocator::new();
    let mut g = BallConvexPolyhedronManifoldGenerator::new(false);
    let prediction = ContactPrediction { linear: 2 * ONE };
    let applies = g.update(
        3,
        ball(2 * ONE),
        4,
        Shape::ConvexPolyhedron(probe_at(3 * ONE, false, FeatureId::Face(7))),
        &prediction,
        &mut ids,
    );
    assert!(applies);
    assert_eq!(g.num_contacts(), 1);
    let m = only_contact(&g);
    assert_eq!(m.subshape_id1(), 3);
    assert_eq!(m.subshape_id2(), 4);
    assert_eq!(m.capacity(), MANIFOLD_CAPACITY);
    let c = m.get(0);
    assert_eq!(c.contact.depth, -ONE);
    assert_eq!(c.contact.normal, Vector::new(ONE, 0, 0));
    assert_eq!(c.contact.world1, Point::new(2 * ONE, 0, 0));
    assert_eq!(c.contact.world2, Point::new(3 * ONE, 0, 0));
    assert_eq!(c.kinematic.anchor1.feature, FeatureId::Face(0));
    assert_eq!(c.kinematic.anchor1.local, Point::origin());
    assert_eq!(c.kinematic.anchor1.dilation, 2 * ONE);
    assert!(matches!(&c.kinematic.anchor1.shape, LocalShape::Point(n) if n.generators.is_empty()));
    assert_eq!(c.kinematic.anchor2.feature, FeatureId::Face(7));
    assert_eq!(c.kinematic.anchor2.local, Point::new(-ONE, 5, 6));
    assert_eq!(c.kinematic.anchor2.dilation, 0);
    assert!(matches!(&c.kinematic.anchor2.shape, LocalShape::Plane(n) if *n == Vector::new(-ONE, 0, 0)));
}

#[test]
fn ball_at_the_margin_is_admitted_and_beyond_it_is_not() {
    let margin = ONE;
    let at = synthesize(Point::origin(), 2 * ONE, probe_at(3 * ONE, false, FeatureId::Vertex(1)), margin, false);
    assert_eq!(at.map(|(c, _)| c.depth), Some(-ONE));
    let beyond =
        synthesize(Point::origin(), 2 * ONE, probe_at(3 * ONE + 1, false, FeatureId::Vertex(1)), margin, false);
    assert!(beyond.is_none());
}

#[test]
fn ball_beyond_the_margin_leaves_the_manifold_empty() {
    let mut ids = IdAllocator::new();
    let mut g = BallConvexPolyhedronManifoldGenerator::new(false);
    let prediction = ContactPrediction { linear: ONE / 2 };
    let applies = g.update(
        0,
        ball(ONE),
        0,
        Shape::ConvexPolyhedron(probe_at(4 * ONE, false, FeatureId::Face(7))),
        &prediction,
        &mut ids,
    );
    assert!(applies);
    assert_eq!(g.num_contacts(), 0);
    let mut out: Vec<&ContactManifold> = Vec::new();
    g.contacts(&mut out);
    assert!(out.is_empty());
}

#[test]
fn ball_inside_is_pushed_back_out() {
    let got = synthesize(
        Point::new(10, 20, 30),
        2 * ONE,
        probe_at(ONE, true, FeatureId::Vertex(3)),
        0,
        false,
    );
    let (c, k) = got.unwrap();
    assert_eq!(c.depth, 3 * ONE);
    assert_eq!(c.normal, Vector::new(-ONE, 0, 0));
    assert_eq!(c.world1, Point::new(10 - 2 * ONE, 20, 30));
    assert_eq!(c.world2, Point::new(ONE, 0, 0));
    assert!(matches!(&k.anchor2.shape, LocalShape::Point(n) if n.generators.len() == 2));
}

#[test]
fn edge_feature_is_anchored_on_a_line() {
    let (_, k) = synthesize(Point::origin(), ONE, probe_at(ONE, false, FeatureId::Edge(5)), 0, false).unwrap();
    assert_eq!(k.anchor2.feature, FeatureId::Edge(5));
    assert!(matches!(
        &k.anchor2.shape,
        LocalShape::Line(d, n) if *d == Vector::new(0, 0, ONE) && n.generators.len() == 2
    ));
}

#[test]
fn flipped_generator_swaps_points_and_negates_normal() {
    let straight =
        synthesize(Point::origin(), 2 * ONE, probe_at(ONE, false, FeatureId::Face(1)), 0, false).unwrap();
    let flipped =
        synthesize(Point::origin(), 2 * ONE, probe_at(ONE, false, FeatureId::Face(1)), 0, true).unwrap();
    assert_eq!(flipped.0.world1, straight.0.world2);
    assert_eq!(flipped.0.world2, straight.0.world1);
    assert_eq!(flipped.0.normal, Vector::new(-straight.0.normal.x, -straight.0.normal.y, -straight.0.normal.z));
    assert_eq!(flipped.0.depth, straight.0.depth);
    assert_eq!(flipped.1.anchor2.feature, FeatureId::Face(0));
    assert_eq!(flipped.1.anchor2.dilation, 2 * ONE);
    assert_eq!(flipped.1.anchor1.feature, FeatureId::Face(1));

    let mut ids = IdAllocator::new();
    let mut g = BallConvexPolyhedronManifoldGenerator::new(true);
    assert!(g.is_flipped());
    let prediction = ContactPrediction { linear: 0 };
    assert!(g.update(
        1,
        Shape::ConvexPolyhedron(probe_at(ONE, false, FeatureId::Face(1))),
        2,
        ball(2 * ONE),
        &prediction,
        &mut ids,
    ));
    let m = only_contact(&g);
    assert_eq!(m.get(0).contact, flipped.0);
    assert_eq!(m.subshape_id1(), 1);
    assert_eq!(m.subshape_id2(), 2);
}

#[test]
fn wrong_shapes_are_declined() {
    let mut ids = IdAllocator::new();
    let prediction = ContactPrediction { linear: 0 };
    let mut g = BallConvexPolyhedronManifoldGenerator::new(false);
    assert!(!g.update(0, ball(ONE), 0, ball(ONE), &prediction, &mut ids));
    assert!(!g.update(0, Shape::Other, 0, Shape::ConvexPolyhedron(probe_at(ONE, false, FeatureId::Face(1))), &prediction, &mut ids));
    assert!(!g.update(
        0,
        Shape::ConvexPolyhedron(probe_at(ONE, false, FeatureId::Face(1))),
        0,
        ball(ONE),
        &prediction,
        &mut ids,
    ));
    assert_eq!(g.num_contacts(), 0);
    let mut flipped = BallConvexPolyhedronManifoldGenerator::new(true);
    assert!(!flipped.update(
        0,
        ball(ONE),
        0,
        Shape::ConvexPolyhedron(probe_at(ONE, false, FeatureId::Face(1))),
        &prediction,
        &mut ids,
    ));
}

#[test]
fn centre_on_the_surface_gets_no_contact() {
    let mut ids = IdAllocator::new();
    let mut g = BallConvexPolyhedronManifoldGenerator::new(false);
    let prediction = ContactPrediction { linear: ONE };
    let mut probe = probe_at(0, false, FeatureId::Unknown);
    probe.approach = None;
    assert!(g.update(0, ball(ONE), 0, Shape::ConvexPolyhedron(probe), &prediction, &mut ids));
    assert_eq!(g.num_contacts(), 0);
}

#[test]
fn the_contact_keeps_its_identity_from_step_to_step() {
    let mut ids = IdAllocator::new();
    let mut g = BallConvexPolyhedronManifoldGenerator::new(false);
    let prediction = ContactPrediction { linear: 0 };
    let taken = ids.allocate();
    assert!(g.update(0, ball(2 * ONE), 0, Shape::ConvexPolyhedron(probe_at(ONE, false, FeatureId::Face(1))), &prediction, &mut ids));
    let first = only_contact(&g).get(0).id;
    assert_ne!(first, taken);
    assert!(g.update(0, ball(2 * ONE), 0, Shape::ConvexPolyhedron(probe_at(ONE + 5, false, FeatureId::Face(1))), &prediction, &mut ids));
    assert_eq!(g.num_contacts(), 1);
    assert_eq!(only_contact(&g).get(0).id, first);
    assert_eq!(only_contact(&g).get(0).contact.depth, ONE - 5);
    let copy = g.clone();
    assert_eq!(copy.num_contacts(), 1);
}
