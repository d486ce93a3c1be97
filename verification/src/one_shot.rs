use crate::contact::{Contact, ContactKinematic};
use crate::id_allocator::IdAllocator;
use crate::manifold::{ceased, refreshed, ContactManifold, TrackedContact, MANIFOLD_CAPACITY};
use crate::math::{is_direction, Vector, ONE};
use vstd::prelude::*;

verus! {

/// Whether the generator tracks any contact.
#[derive(Clone, Copy, Debug, PartialEq, Eq, Structural)]
pub enum OneShotState {
    /// The manifold holds no contact.
    Empty,
    /// The manifold holds at least one contact.
    Populated,
}

/// What a step of the generator begins with.
#[derive(Clone, Copy, Debug, PartialEq, Eq, Structural)]
pub enum OneShotAction {
    /// Ask the single-point detector for one collision, and where it finds
    /// one, probe the perturbed poses for more.
    Probe,
    /// Bring the tracked contacts up to date, point by point.
    Track,
}

/// The divisor that takes a rotation axis down to a small angle.
pub const PERTURBATION_DIVISOR: i64 = 100;

/// `v / d`, rounded towards zero.
pub open spec fn toward_zero(v: int, d: int) -> int
    recommends
        d > 0,
{
    if v >= 0 {
        v / d
    } else {
        -((-v) / d)
    }
}

/// The component `a1 * b2 - a2 * b1` of a cross product of two directions, in
/// fixed point and taken down to a small angle.
pub open spec fn small_cross(a1: i64, b2: i64, a2: i64, b1: i64) -> int {
    toward_zero(a1 * b2 - a2 * b1, ONE * PERTURBATION_DIVISOR)
}

/// The small rotation about the axis that is perpendicular to `normal` and `b`.
pub open spec fn perturbation(normal: Vector, b: Vector) -> Vector {
    Vector {
        x: small_cross(normal.y, b.z, normal.z, b.y) as i64,
        y: small_cross(normal.z, b.x, normal.x, b.z) as i64,
        z: small_cross(normal.x, b.y, normal.y, b.x) as i64,
    }
}

/// The rotations to probe for a contact normal and the basis of the directions
/// perpendicular to it: for each basis direction in turn its small rotation,
/// then the opposite one.
pub open spec fn perturbations(normal: Vector, basis: Seq<Vector>) -> Seq<Vector> {
    Seq::new(
        2 * basis.len(),
        |i: int|
            if i % 2 == 0 {
                perturbation(normal, basis[i / 2])
            } else {
                perturbation(normal, basis[i / 2]).opposite()
            },
    )
}

fn small_cross_component(a1: i64, b2: i64, a2: i64, b1: i64) -> (c: i64)
    requires
        -ONE <= a1 <= ONE,
        -ONE <= b2 <= ONE,
        -ONE <= a2 <= ONE,
        -ONE <= b1 <= ONE,
    ensures
        c == small_cross(a1, b2, a2, b1),
        -ONE <= c <= ONE,
{
    assert(-(ONE * ONE) <= (a1 as int) * (b2 as int) <= ONE * ONE) by (nonlinear_arith)
        requires
            -ONE <= a1 <= ONE,
            -ONE <= b2 <= ONE,
    ;
    assert(-(ONE * ONE) <= (a2 as int) * (b1 as int) <= ONE * ONE) by (nonlinear_arith)
        requires
            -ONE <= a2 <= ONE,
            -ONE <= b1 <= ONE,
    ;
    let p: i128 = (a1 as i128) * (b2 as i128);
    let q: i128 = (a2 as i128) * (b1 as i128);
    let v: i128 = p - q;
    let d: i128 = (ONE as i128) * (PERTURBATION_DIVISOR as i128);
    if v >= 0 {
        let r: i128 = v / d;
        assert(r <= ONE) by (nonlinear_arith)
            requires
                r == (v as int) / (d as int),
                0 <= v <= 2 * (ONE * ONE),
                d == ONE * 100,
        ;
        r as i64
    } else {
        let m: i128 = -v;
        let r: i128 = m / d;
        assert(r <= ONE) by (nonlinear_arith)
            requires
                r == (m as int) / (d as int),
                0 <= m <= 2 * (ONE * ONE),
                d == ONE * 100,
        ;
        (-r) as i64
    }
}

/// The rotations at which to probe for further contacts, once a first contact
/// with the given normal was found.
pub fn perturbation_axes(normal: Vector, basis: &Vec<Vector>) -> (axes: Vec<Vector>)
    requires
        is_direction(normal),
        forall|i: int| 0 <= i < basis@.len() ==> is_direction(#[trigger] basis@[i]),
    ensures
        axes@ == perturbations(normal, basis@),
        axes@.len() == 2 * basis@.len(),
{
    let mut axes: Vec<Vector> = Vec::new();
    let mut i: usize = 0;
    while i < basis.len()
        invariant
            i <= basis@.len(),
            is_direction(normal),
            forall|j: int| 0 <= j < basis@.len() ==> is_direction(#[trigger] basis@[j]),
            axes@.len() == 2 * i,
            forall|j: int| 0 <= j < 2 * i ==> #[trigger] axes@[j] == perturbations(normal, basis@)[j],
        decreases basis@.len() - i,
    {
        let b: Vector = basis[i];
        assert(is_direction(basis@[i as int]));
        let axis: Vector = Vector {
            x: small_cross_component(normal.y, b.z, normal.z, b.y),
            y: small_cross_component(normal.z, b.x, normal.x, b.z),
            z: small_cross_component(normal.x, b.y, normal.y, b.x),
        };
        assert(axis == perturbation(normal, b));
        axes.push(axis);
        axes.push(axis.negated());
        i += 1;
    }
    axes
}

/// Whether two contacts join the same two world points.
pub open spec fn same_points(a: Contact, b: Contact) -> bool {
    a.world1 == b.world1 && a.world2 == b.world2
}

/// The generator for a pair of shapes that has no closed form: it finds a
/// whole manifold at once when the shapes first touch, and from then on brings
/// that manifold up to date point by point.
#[derive(Clone, Debug)]
pub struct OneShotContactManifoldGenerator {
    prediction: i64,
    manifold: ContactManifold,
}

impl OneShotContactManifoldGenerator {
    /// The manifold of the pair.
    pub closed spec fn manifold(&self) -> ContactManifold {
        self.manifold
    }

    /// The prediction margin that the generator was made with.
    pub closed spec fn margin(&self) -> i64 {
        self.prediction
    }

    /// Whether the manifold is within its capacity.
    pub open spec fn wf(&self) -> bool {
        self.manifold().wf()
    }

    /// The state: populated as soon as one contact is tracked.
    pub open spec fn state_spec(&self) -> OneShotState {
        if self.manifold().contacts().len() == 0 {
            OneShotState::Empty
        } else {
            OneShotState::Populated
        }
    }

    /// Creates a generator without a contact, for the given prediction margin.
    pub fn new(prediction: i64) -> (g: Self)
        ensures
            g.wf(),
            g.margin() == prediction,
            g.state_spec() == OneShotState::Empty,
            g.manifold().cache().len() == 0,
            g.manifold().capacity_spec() == MANIFOLD_CAPACITY,
            forall|pool: IdAllocator| pool.wf() ==> #[trigger] g.manifold().owns_identities(pool),
    {
        OneShotContactManifoldGenerator { prediction, manifold: ContactManifold::new(MANIFOLD_CAPACITY) }
    }

    pub fn prediction(&self) -> (p: i64)
        ensures
            p == self.margin(),
    {
        self.prediction
    }

    pub fn state(&self) -> (s: OneShotState)
        ensures
            s == self.state_spec(),
    {
        if self.manifold.len() == 0 {
            OneShotState::Empty
        } else {
            OneShotState::Populated
        }
    }

    /// What the step that begins now does: it probes for a whole manifold
    /// while no contact is tracked, and tracks the ones it has otherwise.
    pub fn next_action(&self) -> (a: OneShotAction)
        ensures
            a == if self.state_spec() == OneShotState::Empty {
                OneShotAction::Probe
            } else {
                OneShotAction::Track
            },
    {
        if self.manifold.len() == 0 {
            OneShotAction::Probe
        } else {
            OneShotAction::Track
        }
    }

    /// The number of contacts that are tracked.
    pub fn num_coll(&self) -> (n: usize)
        ensures
            n == self.manifold().contacts().len(),
            self.wf() ==> n <= self.manifold().capacity_spec(),
    {
        self.manifold.len()
    }

    /// Appends the tracked contacts to `out`, oldest first.
    pub fn colls(&self, out: &mut Vec<Contact>)
        ensures
            final(out)@ == old(out)@ + self.manifold().contacts().map_values(
                |c: TrackedContact| c.contact,
            ),
    {
        let n: usize = self.manifold.len();
        let mut i: usize = 0;
        while i < n
            invariant
                i <= n,
                n == self.manifold().contacts().len(),
                out@ == old(out)@ + self.manifold().contacts().subrange(0, i as int).map_values(
                    |c: TrackedContact| c.contact,
                ),
            decreases n - i,
        {
            out.push(self.manifold.get(i).contact);
            i += 1;
        }
        assert(self.manifold().contacts().subrange(0, n as int) == self.manifold().contacts());
    }

    /// The contact at place `i`, the oldest at 0.
    pub fn get(&self, i: usize) -> (c: &TrackedContact)
        requires
            i < self.manifold().contacts().len(),
        ensures
            *c == self.manifold().contacts()[i as int],
    {
        self.manifold.get(i)
    }

    /// Whether a contact between the same two world points is tracked already.
    pub open spec fn tracks(&self, contact: Contact) -> bool {
        exists|i: int|
            0 <= i < self.manifold().contacts().len() && same_points(
                (#[trigger] self.manifold().contacts()[i]).contact,
                contact,
            )
    }

    /// Merges into the manifold a contact that a probe has found, and returns
    /// its identity; a contact between two points that are tracked already is
    /// left out, and the manifold stays as it is.
    pub fn add_new_contact(
        &mut self,
        contact: Contact,
        kinematic: ContactKinematic,
        id_alloc: &mut IdAllocator,
    ) -> (id: Option<usize>)
        requires
            old(self).wf(),
            old(id_alloc).has_room(),
        ensures
            final(self).wf(),
            final(self).margin() == old(self).margin(),
            final(self).manifold().capacity_spec() == old(self).manifold().capacity_spec(),
            id.is_none() == old(self).tracks(contact),
            id.is_none() ==> final(self).manifold() == old(self).manifold() && *final(id_alloc)
                == *old(id_alloc),
            id.is_some() ==> final(self).manifold().contacts() == old(
                self
            ).manifold().survivors().push(TrackedContact { contact, kinematic, id: id.unwrap() }),
            id.is_some() ==> final(self).state_spec() == OneShotState::Populated,
            final(self).manifold().contacts().len() <= final(self).manifold().capacity_spec(),
            old(self).manifold().owns_identities(*old(id_alloc)) ==> {
                &&& final(self).manifold().owns_identities(*final(id_alloc))
                &&& old(self).manifold().spares(*old(id_alloc), *final(id_alloc))
            },
    {
        let n: usize = self.manifold.len();
        let mut i: usize = 0;
        while i < n
            invariant
                i <= n,
                n == self.manifold().contacts().len(),
                *self == *old(self),
                self.wf(),
                forall|j: int|
                    0 <= j < i ==> !same_points(
                        (#[trigger] self.manifold().contacts()[j]).contact,
                        contact,
                    ),
            decreases n - i,
        {
            let held: &TrackedContact = self.manifold.get(i);
            if held.contact.world1 == contact.world1 && held.contact.world2 == contact.world2 {
                return None;
            }
            i += 1;
        }
        Some(self.manifold.push(contact, kinematic, id_alloc))
    }

    /// Brings the tracked contacts up to date against the poses of this step:
    /// contact `i` takes the geometry `updates[i]` and keeps its identity, or
    /// leaves where there is none. The generator is empty again once the last
    /// contact has left.
    pub fn update_contacts(&mut self, updates: &Vec<Option<Contact>>, id_alloc: &mut IdAllocator)
        requires
            old(self).wf(),
            updates@.len() == old(self).manifold().contacts().len(),
        ensures
            final(self).wf(),
            final(self).margin() == old(self).margin(),
            final(self).manifold().capacity_spec() == old(self).manifold().capacity_spec(),
            final(self).manifold().contacts() == refreshed(old(self).manifold().contacts(), updates@),
            final(self).manifold().cache() == old(self).manifold().cache(),
            old(self).manifold().owns_identities(*old(id_alloc)) ==> {
                &&& final(self).manifold().owns_identities(*final(id_alloc))
                &&& old(self).manifold().spares(*old(id_alloc), *final(id_alloc))
            },
            final(id_alloc).next() == old(id_alloc).next(),
            final(id_alloc).released() == old(id_alloc).released() + ceased(
                old(self).manifold().contacts(),
                updates@,
            ),
    {
        self.manifold.refresh(updates, id_alloc);
    }
}

} // verus!
