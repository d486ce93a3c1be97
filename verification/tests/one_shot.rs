use narrow_contacts::contact::{Anchor, Contact, ContactKinematic, LocalShape, PolyhedralCone};
use narrow_contacts::feature::FeatureId;
use narrow_contacts::id_allocator::IdAllocator;
use narrow_contacts::math::{Point, Vector, ONE};
use narrow_contacts::one_shot::{
    perturbation_axes, OneShotAction, OneShotContactManifoldGenerator, OneShotState,
};

fn contact(depth: i64) -> Contact {
    Contact::new(Point::new(depth, 0, 0), Point::new(0, depth, 0), Vector::new(0, 0, ONE), depth)
}

fn kinematic(i: usize) -> ContactKinematic {
    let a = |f: FeatureId| Anchor { feature: f, local: Point::origin(), shape: LocalShape::Point(PolyhedralCone::new()), dilation: 0 };
    ContactKinematic { anchor1: a(FeatureId::Vertex(i)), anchor2: a(FeatureId::Face(i)) }
}

#[test]
fn perturbation_axes_are_small_and_come_in_opposite_pairs() {
    let normal = Vector::new(0, 0, ONE);
    let basis = vec![Vector::new(ONE, 0, 0), Vector::new(0, ONE, 0)];
    let axes = perturbation_axes(normal, &basis);
    assert_eq!(
        axes,
        vec![
            Vector::new(0, 42949672, 0),
            Vector::new(0, -42949672, 0),
            Vector::new(-42949672, 0, 0),
            Vector::new(42949672, 0, 0),
        ]
    );
    assert!(perturbation_axes(normal, &Vec::new()).is_empty());
}

#[test]
fn empty_generator_probes_and_stays_empty_without_a_collision() {
    let g = OneShotContactManifoldGenerator::new(ONE / 10);
    assert_eq!(g.prediction(), ONE / 10);
    assert_eq!(g.state(), OneShotState::Empty);
    assert_eq!(g.next_action(), OneShotAction::Probe);
    assert_eq!(g.num_coll(), 0);
    let mut out = Vec::new();
    g.colls(&mut out);
    assert!(out.is_empty());
}

#[test]
fn one_shot_expansion_populates_with_distinct_identities() {
    let mut ids = IdAllocator::new();
    let mut g = OneShotContactManifoldGenerator::new(0);
    assert_eq!(g.next_action(), OneShotAction::Probe);
    let a = g.add_new_contact(contact(1), kinematic(1), &mut ids).unwrap();
    let b = g.add_new_contact(contact(2), kinematic(2), &mut ids).unwrap();
    let c = g.add_new_contact(contact(3), kinematic(3), &mut ids).unwrap();
    assert!(a != b && b != c && a != c);
    g.update_contacts(&vec![Some(contact(11)), Some(contact(12)), Some(contact(13))], &mut ids);
    assert_eq!(g.state(), OneShotState::Populated);
    assert!(1 <= g.num_coll() && g.num_coll() <= 3);
    assert_eq!(g.next_action(), OneShotAction::Track);

    g.update_contacts(&vec![Some(contact(11)), Some(contact(12)), Some(contact(13))], &mut ids);
    assert_eq!(g.num_coll(), 3);
    assert_eq!(g.get(0).id, a);
    assert_eq!(g.get(1).id, b);
    assert_eq!(g.get(2).id, c);
    let mut out = vec![contact(0)];
    g.colls(&mut out);
    assert_eq!(out, vec![contact(0), contact(11), contact(12), contact(13)]);
}

#[test]
fn single_detected_point_gives_one_contact() {
    let mut ids = IdAllocator::new();
    let mut g = OneShotContactManifoldGenerator::new(0);
    let a = g.add_new_contact(contact(1), kinematic(1), &mut ids).unwrap();
    g.update_contacts(&vec![Some(contact(1))], &mut ids);
    assert_eq!(g.num_coll(), 1);
    assert_eq!(g.get(0).id, a);
    assert_eq!(g.state(), OneShotState::Populated);
}

#[test]
fn tracking_down_to_nothing_empties_the_generator() {
    let mut ids = IdAllocator::new();
    let mut g = OneShotContactManifoldGenerator::new(0);
    let a = g.add_new_contact(contact(1), kinematic(1), &mut ids).unwrap();
    let b = g.add_new_contact(contact(2), kinematic(2), &mut ids).unwrap();
    g.update_contacts(&vec![None, Some(contact(5))], &mut ids);
    assert_eq!(g.num_coll(), 1);
    assert_eq!(g.get(0).id, b);
    assert_eq!(g.get(0).contact, contact(5));
    g.update_contacts(&vec![None], &mut ids);
    assert_eq!(g.state(), OneShotState::Empty);
    assert_eq!(g.next_action(), OneShotAction::Probe);
    assert_eq!(ids.allocate(), b);
    assert_eq!(ids.allocate(), a);
}

#[test]
fn a_full_generator_lets_the_oldest_contact_go() {
    let mut ids = IdAllocator::new();
    let mut g = OneShotContactManifoldGenerator::new(0);
    for i in 0..6usize {
        assert!(g.add_new_contact(contact(i as i64), kinematic(i), &mut ids).is_some());
        assert!(g.num_coll() <= 4);
    }
    assert_eq!(g.num_coll(), 4);
    assert_eq!(g.get(0).contact.depth, 2);
    assert_eq!(g.get(3).contact.depth, 5);
}

#[test]
fn a_point_pair_that_is_tracked_is_not_merged_again() {
    let mut ids = IdAllocator::new();
    let mut g = OneShotContactManifoldGenerator::new(0);
    assert_eq!(g.add_new_contact(contact(1), kinematic(1), &mut ids), Some(0));
    let mut again = contact(1);
    again.depth = 99;
    assert_eq!(g.add_new_contact(again, kinematic(2), &mut ids), None);
    assert_eq!(g.num_coll(), 1);
    assert_eq!(g.get(0).contact.depth, 1);
    assert_eq!(ids.allocate(), 1);
}
