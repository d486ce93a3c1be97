use narrow_contacts::contact::{Anchor, Contact, ContactKinematic, LocalShape, PolyhedralCone};
use narrow_contacts::feature::FeatureId;
use narrow_contacts::id_allocator::IdAllocator;
use narrow_contacts::manifold::ContactManifold;
use narrow_contacts::math::{Point, Vector};

fn contact(depth: i64) -> Contact {
    Contact::new(Point::new(depth, 0, 0), Point::new(0, depth, 0), Vector::new(0, 0, 1), depth)
}

fn anchor(feature: FeatureId) -> Anchor {
    Anchor { feature, local: Point::origin(), shape: LocalShape::Point(PolyhedralCone::new()), dilation: 0 }
}

fn kinematic(f1: FeatureId, f2: FeatureId) -> ContactKinematic {
    ContactKinematic { anchor1: anchor(f1), anchor2: anchor(f2) }
}

#[test]
fn allocator_hands_out_fresh_then_released() {
    let mut a = IdAllocator::new();
    assert_eq!(a.allocate(), 0);
    assert_eq!(a.allocate(), 1);
    assert_eq!(a.allocate(), 2);
    a.release(1);
    a.release(0);
    assert_eq!(a.allocate(), 0);
    assert_eq!(a.allocate(), 1);
    assert_eq!(a.allocate(), 3);
}

#[test]
fn push_never_exceeds_capacity_and_evicts_the_oldest() {
    let mut a = IdAllocator::new();
    let mut m = ContactManifold::new(3);
    assert_eq!(m.capacity(), 3);
    for i in 0..10usize {
        let id = m.push(contact(i as i64), kinematic(FeatureId::Vertex(i), FeatureId::Face(i)), &mut a);
        assert!(m.len() <= m.capacity());
        assert_eq!(m.len(), if i < 3 { i + 1 } else { 3 });
        assert_eq!(m.get(m.len() - 1).id, id);
        assert_eq!(m.get(m.len() - 1).contact, contact(i as i64));
    }
    assert_eq!(m.get(0).contact.depth, 7);
    assert_eq!(m.get(1).contact.depth, 8);
    assert_eq!(m.get(2).contact.depth, 9);
}

#[test]
fn eviction_gives_the_identity_back() {
    let mut a = IdAllocator::new();
    let mut m = ContactManifold::new(2);
    assert_eq!(m.push(contact(1), kinematic(FeatureId::Face(1), FeatureId::Face(1)), &mut a), 0);
    assert_eq!(m.push(contact(2), kinematic(FeatureId::Face(2), FeatureId::Face(2)), &mut a), 1);
    assert_eq!(m.push(contact(3), kinematic(FeatureId::Face(3), FeatureId::Face(3)), &mut a), 2);
    assert_eq!(m.len(), 2);
    assert_eq!(m.get(0).id, 1);
    assert_eq!(m.get(1).id, 2);
    assert_eq!(a.allocate(), 0);
}

#[test]
fn cleared_manifold_reuses_the_identity_of_the_same_features() {
    let mut a = IdAllocator::new();
    let mut m = ContactManifold::new(4);
    let first = m.push(contact(1), kinematic(FeatureId::Face(0), FeatureId::Edge(4)), &mut a);
    let second = m.push(contact(2), kinematic(FeatureId::Face(0), FeatureId::Vertex(2)), &mut a);
    assert_ne!(first, second);
    m.save_cache_and_clear(&mut a);
    assert_eq!(m.len(), 0);
    let again = m.push(contact(5), kinematic(FeatureId::Face(0), FeatureId::Vertex(2)), &mut a);
    assert_eq!(again, second);
    let other = m.push(contact(6), kinematic(FeatureId::Face(0), FeatureId::Face(9)), &mut a);
    assert_eq!(other, 2);
    m.save_cache_and_clear(&mut a);
    assert_eq!(a.allocate(), first);
}

#[test]
fn subshape_ids_are_kept() {
    let mut m = ContactManifold::new(1);
    m.set_subshape_id1(11);
    m.set_subshape_id2(22);
    assert_eq!(m.subshape_id1(), 11);
    assert_eq!(m.subshape_id2(), 22);
}

#[test]
fn refresh_keeps_identities_and_drops_the_ceased() {
    let mut a = IdAllocator::new();
    let mut m = ContactManifold::new(4);
    let i0 = m.push(contact(1), kinematic(FeatureId::Face(1), FeatureId::Face(1)), &mut a);
    let i1 = m.push(contact(2), kinematic(FeatureId::Face(2), FeatureId::Face(2)), &mut a);
    let i2 = m.push(contact(3), kinematic(FeatureId::Face(3), FeatureId::Face(3)), &mut a);
    m.refresh(&vec![Some(contact(10)), None, Some(contact(30))], &mut a);
    assert_eq!(m.len(), 2);
    assert_eq!(m.get(0).id, i0);
    assert_eq!(m.get(0).contact, contact(10));
    assert_eq!(m.get(0).kinematic.anchor1.feature, FeatureId::Face(1));
    assert_eq!(m.get(1).id, i2);
    assert_eq!(m.get(1).contact, contact(30));
    assert_eq!(a.allocate(), i1);
}

#[test]
fn a_manifold_holds_at_least_one_contact() {
    let mut a = IdAllocator::new();
    let mut m = ContactManifold::new(0);
    assert_eq!(m.capacity(), 1);
    m.push(contact(1), kinematic(FeatureId::Face(1), FeatureId::Face(1)), &mut a);
    m.push(contact(2), kinematic(FeatureId::Face(2), FeatureId::Face(2)), &mut a);
    assert_eq!(m.len(), 1);
    assert_eq!(m.get(0).contact.depth, 2);
}
