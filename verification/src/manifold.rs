use crate::contact::{Contact, ContactKinematic};
use crate::feature::FeatureId;
use crate::id_allocator::IdAllocator;
use vstd::prelude::*;

verus! {

/// The number of contacts that the manifold of a generator can hold.
pub const MANIFOLD_CAPACITY: usize = 4;

/// A contact of a manifold, with the identity under which it is known.
#[derive(Clone, Debug)]
pub struct TrackedContact {
    pub contact: Contact,
    pub kinematic: ContactKinematic,
    pub id: usize,
}

impl TrackedContact {
    /// What is remembered of the contact once the manifold is cleared.
    pub open spec fn remembered(self) -> CachedId {
        CachedId {
            feature1: self.kinematic.anchor1.feature,
            feature2: self.kinematic.anchor2.feature,
            id: self.id,
        }
    }
}

/// The identity that a contact between two features had in the last step.
#[derive(Clone, Copy, Debug, PartialEq, Eq, Structural)]
pub struct CachedId {
    pub feature1: FeatureId,
    pub feature2: FeatureId,
    pub id: usize,
}

/// The index of the first entry of `cache` at or after `from` that was made
/// between the features `f1` and `f2`; the length of `cache` where there is none.
pub open spec fn first_match(cache: Seq<CachedId>, f1: FeatureId, f2: FeatureId, from: int) -> int
    decreases cache.len() - from,
{
    if from < 0 || from >= cache.len() {
        cache.len() as int
    } else if cache[from].feature1 == f1 && cache[from].feature2 == f2 {
        from
    } else {
        first_match(cache, f1, f2, from + 1)
    }
}

/// The contacts that are kept for one pair of shapes, oldest first, never
/// more than the capacity that the manifold was made with.
///
/// A contact pushed on a full manifold takes the place of the oldest one, whose
/// identity goes back to the pool.
#[derive(Clone, Debug)]
pub struct ContactManifold {
    capacity: usize,
    subshape_id1: usize,
    subshape_id2: usize,
    contacts: Vec<TrackedContact>,
    cache: Vec<CachedId>,
}

impl ContactManifold {
    /// The number of contacts that the manifold was made for.
    pub closed spec fn capacity_spec(&self) -> nat {
        self.capacity as nat
    }

    /// The contacts that are kept, oldest first.
    pub closed spec fn contacts(&self) -> Seq<TrackedContact> {
        self.contacts@
    }

    /// The identities of the last step that no contact has claimed yet.
    pub closed spec fn cache(&self) -> Seq<CachedId> {
        self.cache@
    }

    /// The parts of their compounds that the two shapes are.
    pub closed spec fn subshape_ids(&self) -> (usize, usize) {
        (self.subshape_id1, self.subshape_id2)
    }

    /// Whether the manifold holds no more contacts than it was made for.
    pub open spec fn wf(&self) -> bool {
        0 < self.capacity_spec() && self.contacts().len() <= self.capacity_spec()
    }

    /// Whether every identity that the manifold holds, for a contact or in
    /// memory of the last step, is handed out by `pool` at present, and none
    /// is held twice.
    pub open spec fn owns_identities(&self, pool: IdAllocator) -> bool {
        &&& pool.wf()
        &&& forall|i: int| 0 <= i < self.contacts().len() ==> pool.live(
            (#[trigger] self.contacts()[i]).id,
        )
        &&& forall|i: int| 0 <= i < self.cache().len() ==> pool.live((#[trigger] self.cache()[i]).id)
        &&& forall|i: int, j: int|
            0 <= i < j < self.contacts().len() ==> (#[trigger] self.contacts()[i]).id != (
            #[trigger] self.contacts()[j]).id
        &&& forall|i: int, j: int|
            0 <= i < j < self.cache().len() ==> (#[trigger] self.cache()[i]).id != (
            #[trigger] self.cache()[j]).id
        &&& forall|i: int, j: int|
            0 <= i < self.contacts().len() && 0 <= j < self.cache().len() ==> (
            #[trigger] self.contacts()[i]).id != (#[trigger] self.cache()[j]).id
    }

    /// Whether the manifold holds the identity `id`, for a contact or in memory
    /// of the last step.
    pub open spec fn holds(&self, id: usize) -> bool {
        ||| exists|i: int| 0 <= i < self.contacts().len() && (#[trigger] self.contacts()[i]).id == id
        ||| exists|i: int| 0 <= i < self.cache().len() && (#[trigger] self.cache()[i]).id == id
    }

    /// Whether every identity that `before` has handed out, and that this
    /// manifold does not hold, is still handed out by `after`.
    pub open spec fn spares(&self, before: IdAllocator, after: IdAllocator) -> bool {
        forall|other: usize|
            #[trigger] before.live(other) && !self.holds(other) ==> after.live(other)
    }

    /// The contacts that stay when one more is pushed.
    pub open spec fn survivors(&self) -> Seq<TrackedContact> {
        if self.contacts().len() >= self.capacity_spec() {
            self.contacts().subrange(1, self.contacts().len() as int)
        } else {
            self.contacts()
        }
    }

    /// An empty manifold for at most `capacity` contacts, and for one contact
    /// where `capacity` is 0.
    pub fn new(capacity: usize) -> (m: Self)
        ensures
            m.wf(),
            m.capacity_spec() == if capacity == 0 {
                1
            } else {
                capacity
            },
            m.contacts().len() == 0,
            m.cache().len() == 0,
            m.subshape_ids() == (0usize, 0usize),
    {
        ContactManifold {
            capacity: if capacity == 0 {
                1
            } else {
                capacity
            },
            subshape_id1: 0,
            subshape_id2: 0,
            contacts: Vec::new(),
            cache: Vec::new(),
        }
    }

    pub fn capacity(&self) -> (c: usize)
        ensures
            c == self.capacity_spec(),
    {
        self.capacity
    }

    pub fn len(&self) -> (n: usize)
        ensures
            n == self.contacts().len(),
    {
        self.contacts.len()
    }

    pub fn set_subshape_id1(&mut self, id: usize)
        ensures
            final(self).subshape_ids() == (id, old(self).subshape_ids().1),
            final(self).contacts() == old(self).contacts(),
            final(self).cache() == old(self).cache(),
            final(self).capacity_spec() == old(self).capacity_spec(),
    {
        self.subshape_id1 = id;
    }

    pub fn set_subshape_id2(&mut self, id: usize)
        ensures
            final(self).subshape_ids() == (old(self).subshape_ids().0, id),
            final(self).contacts() == old(self).contacts(),
            final(self).cache() == old(self).cache(),
            final(self).capacity_spec() == old(self).capacity_spec(),
    {
        self.subshape_id2 = id;
    }

    pub fn subshape_id1(&self) -> (id: usize)
        ensures
            id == self.subshape_ids().0,
    {
        self.subshape_id1
    }

    pub fn subshape_id2(&self) -> (id: usize)
        ensures
            id == self.subshape_ids().1,
    {
        self.subshape_id2
    }

    /// The contact at place `i`, the oldest at 0.
    pub fn get(&self, i: usize) -> (c: &TrackedContact)
        requires
            i < self.contacts().len(),
        ensures
            *c == self.contacts()[i as int],
    {
        &self.contacts[i]
    }

    /// Ends a step: the identities that the last step left unclaimed go back to
    /// the pool, in their order; the contacts of this step are remembered by
    /// their features and identities, and the manifold is left empty.
    pub fn save_cache_and_clear(&mut self, id_alloc: &mut IdAllocator)
        requires
            old(self).wf(),
        ensures
            final(self).wf(),
            final(self).capacity_spec() == old(self).capacity_spec(),
            final(self).subshape_ids() == old(self).subshape_ids(),
            final(self).contacts().len() == 0,
            final(self).cache() == old(self).contacts().map_values(
                |c: TrackedContact| c.remembered(),
            ),
            old(self).owns_identities(*old(id_alloc)) ==> {
                &&& final(self).owns_identities(*final(id_alloc))
                &&& old(self).spares(*old(id_alloc), *final(id_alloc))
            },
            final(id_alloc).next() == old(id_alloc).next(),
            final(id_alloc).released() == old(id_alloc).released() + old(self).cache().map_values(
                |c: CachedId| c.id,
            ),
    {
        let mut i: usize = 0;
        while i < self.cache.len()
            invariant
                i <= self.cache.len(),
                *self == *old(self),
                id_alloc.next() == old(id_alloc).next(),
                id_alloc.released() == old(id_alloc).released() + self.cache@.subrange(
                    0,
                    i as int,
                ).map_values(|c: CachedId| c.id),
            decreases self.cache.len() - i,
        {
            id_alloc.release(self.cache[i].id);
            i += 1;
        }
        assert(self.cache@.subrange(0, i as int) == self.cache@);
        let mut cache: Vec<CachedId> = Vec::new();
        let mut j: usize = 0;
        while j < self.contacts.len()
            invariant
                j <= self.contacts.len(),
                *self == *old(self),
                cache@ == self.contacts@.subrange(0, j as int).map_values(
                    |c: TrackedContact| c.remembered(),
                ),
            decreases self.contacts.len() - j,
        {
            let c: &TrackedContact = &self.contacts[j];
            cache.push(
                CachedId {
                    feature1: c.kinematic.anchor1.feature,
                    feature2: c.kinematic.anchor2.feature,
                    id: c.id,
                },
            );
            j += 1;
        }
        assert(self.contacts@.subrange(0, j as int) == self.contacts@);
        self.cache = cache;
        self.contacts.clear();
    }

    /// Tracks one more contact and returns its identity: the one that the last
    /// step gave to a contact between the same two features, where one is still
    /// unclaimed, and else one from the pool. On a full manifold the oldest
    /// contact leaves and its identity goes back to the pool.
    pub fn push(
        &mut self,
        contact: Contact,
        kinematic: ContactKinematic,
        id_alloc: &mut IdAllocator,
    ) -> (id: usize)
        requires
            old(self).wf(),
            old(id_alloc).has_room(),
        ensures
            final(self).wf(),
            final(self).capacity_spec() == old(self).capacity_spec(),
            final(self).subshape_ids() == old(self).subshape_ids(),
            final(self).contacts().len() <= final(self).capacity_spec(),
            final(self).contacts() == old(self).survivors().push(
                TrackedContact { contact, kinematic, id },
            ),
            old(self).owns_identities(*old(id_alloc)) ==> {
                &&& final(self).owns_identities(*final(id_alloc))
                &&& old(self).spares(*old(id_alloc), *final(id_alloc))
            },
            ({
                let k = first_match(
                    old(self).cache(),
                    kinematic.anchor1.feature,
                    kinematic.anchor2.feature,
                    0,
                );
                let drawn = if k < old(self).cache().len() {
                    old(id_alloc).released()
                } else if old(id_alloc).released().len() > 0 {
                    old(id_alloc).released().drop_last()
                } else {
                    old(id_alloc).released()
                };
                &&& k < old(self).cache().len() ==> {
                    &&& id == old(self).cache()[k].id
                    &&& final(self).cache() == old(self).cache().remove(k)
                    &&& final(id_alloc).next() == old(id_alloc).next()
                }
                &&& k >= old(self).cache().len() ==> {
                    &&& id == old(id_alloc).upcoming()
                    &&& final(self).cache() == old(self).cache()
                    &&& final(id_alloc).next() == old(id_alloc).next() + (if old(id_alloc).released().len() > 0 {
                        0nat
                    } else {
                        1nat
                    })
                }
                &&& final(id_alloc).released() == if old(self).contacts().len() >= old(self).capacity_spec() {
                    drawn.push(old(self).contacts()[0].id)
                } else {
                    drawn
                }
            }),
    {
        let f1: FeatureId = kinematic.anchor1.feature;
        let f2: FeatureId = kinematic.anchor2.feature;
        let mut k: usize = 0;
        while k < self.cache.len() && !(self.cache[k].feature1 == f1 && self.cache[k].feature2 == f2)
            invariant
                k <= self.cache.len(),
                *self == *old(self),
                first_match(self.cache@, f1, f2, 0) == first_match(self.cache@, f1, f2, k as int),
            decreases self.cache.len() - k,
        {
            k += 1;
        }
        let id: usize = if k < self.cache.len() {
            let hit: CachedId = self.cache.remove(k);
            hit.id
        } else {
            id_alloc.allocate()
        };
        if self.contacts.len() >= self.capacity {
            let oldest: TrackedContact = self.contacts.remove(0);
            id_alloc.release(oldest.id);
            assert(self.contacts@ == old(self).survivors());
        }
        self.contacts.push(TrackedContact { contact, kinematic, id });
        id
    }

    /// Brings every contact up to date, in place and in order: contact
    /// `i` takes the geometry `updates[i]` and keeps its anchors and its
    /// identity; where `updates[i]` is `None` the contact has ceased, it leaves,
    /// and its identity goes back to the pool.
    pub fn refresh(&mut self, updates: &Vec<Option<Contact>>, id_alloc: &mut IdAllocator)
        requires
            old(self).wf(),
            updates@.len() == old(self).contacts().len(),
        ensures
            final(self).wf(),
            final(self).capacity_spec() == old(self).capacity_spec(),
            final(self).subshape_ids() == old(self).subshape_ids(),
            final(self).cache() == old(self).cache(),
            final(self).contacts() == refreshed(old(self).contacts(), updates@),
            final(self).contacts().len() <= old(self).contacts().len(),
            old(self).owns_identities(*old(id_alloc)) ==> {
                &&& final(self).owns_identities(*final(id_alloc))
                &&& old(self).spares(*old(id_alloc), *final(id_alloc))
            },
            final(id_alloc).next() == old(id_alloc).next(),
            final(id_alloc).released() == old(id_alloc).released() + ceased(
                old(self).contacts(),
                updates@,
            ),
    {
        let n: usize = self.contacts.len();
        let mut kept: Vec<TrackedContact> = Vec::new();
        let mut i: usize = 0;
        let ghost cs = self.contacts@;
        let ghost owned = self.owns_identities(*id_alloc);
        while i < n
            invariant
                i <= n,
                n == old(self).contacts().len(),
                n == updates@.len(),
                self.capacity == old(self).capacity,
                self.cache == old(self).cache,
                self.subshape_id1 == old(self).subshape_id1,
                self.subshape_id2 == old(self).subshape_id2,
                self.contacts@ == old(self).contacts().subrange(i as int, n as int),
                kept@ == refreshed(
                    old(self).contacts().subrange(0, i as int),
                    updates@.subrange(0, i as int),
                ),
                kept@.len() <= i,
                owned ==> old(self).owns_identities(*old(id_alloc)),
                owned ==> id_alloc.wf(),
                owned ==> old(self).spares(*old(id_alloc), *id_alloc),
                owned ==> forall|j: int| i <= j < n ==> id_alloc.live((#[trigger] cs[j]).id),
                owned ==> forall|j: int|
                    0 <= j < self.cache@.len() ==> id_alloc.live((#[trigger] self.cache@[j]).id),
                owned ==> forall|x: int|
                    0 <= x < kept@.len() ==> id_alloc.live((#[trigger] kept@[x]).id) && held_before(
                        cs,
                        i as int,
                        kept@[x].id,
                    ),
                owned ==> forall|x: int, y: int|
                    0 <= x < y < kept@.len() ==> (#[trigger] kept@[x]).id != (#[trigger] kept@[y]).id,
                cs == old(self).contacts(),
                id_alloc.next() == old(id_alloc).next(),
                id_alloc.released() == old(id_alloc).released() + ceased(
                    old(self).contacts().subrange(0, i as int),
                    updates@.subrange(0, i as int),
                ),
            decreases n - i,
        {
            proof {
                let cs = old(self).contacts();
                assert(cs.subrange(0, i + 1).drop_last() == cs.subrange(0, i as int));
                assert(updates@.subrange(0, i + 1).drop_last() == updates@.subrange(0, i as int));
                assert(cs.subrange(0, i + 1).last() == cs[i as int]);
                assert(updates@.subrange(0, i + 1).last() == updates@[i as int]);
                assert(cs.subrange(i as int, n as int).remove(0) == cs.subrange(i + 1, n as int));
            }
            let mut entry: TrackedContact = self.contacts.remove(0);
            assert(entry == cs[i as int]);
            proof {
                if owned {
                    assert(id_alloc.live(cs[i as int].id));
                    assert forall|x: int| 0 <= x < kept@.len() implies (#[trigger] kept@[x]).id
                        != entry.id && held_before(cs, i + 1, kept@[x].id) by {
                        let j = choose|j: int| 0 <= j < i && cs[j].id == kept@[x].id;
                        assert(cs[j].id != cs[i as int].id);
                    }
                    assert(held_before(cs, i + 1, entry.id));
                    assert(old(self).holds(cs[i as int].id));
                }
            }
            match updates[i] {
                Some(contact) => {
                    entry.contact = contact;
                    kept.push(entry);
                },
                None => {
                    id_alloc.release(entry.id);
                },
            }
            i += 1;
        }
        proof {
            let cs = old(self).contacts();
            assert(cs.subrange(0, n as int) == cs);
            assert(updates@.subrange(0, n as int) == updates@);
        }
        self.contacts = kept;
    }
}

/// Whether one of the first `upto` contacts of `entries` has the identity `id`.
pub open spec fn held_before(entries: Seq<TrackedContact>, upto: int, id: usize) -> bool {
    exists|j: int| 0 <= j < upto && (#[trigger] entries[j]).id == id
}

/// The contacts `entries` after each took the geometry that `updates` holds
/// for it, without those for which it holds none.
pub open spec fn refreshed(entries: Seq<TrackedContact>, updates: Seq<Option<Contact>>) -> Seq<
    TrackedContact,
>
    recommends
        entries.len() == updates.len(),
    decreases entries.len(),
{
    if entries.len() == 0 || updates.len() == 0 {
        Seq::empty()
    } else {
        let before = refreshed(entries.drop_last(), updates.drop_last());
        match updates.last() {
            Some(contact) => before.push(TrackedContact { contact, ..entries.last() }),
            None => before,
        }
    }
}

/// The identities of the contacts of `entries` for which `updates` holds no
/// geometry, in their order.
pub open spec fn ceased(entries: Seq<TrackedContact>, updates: Seq<Option<Contact>>) -> Seq<usize>
    recommends
        entries.len() == updates.len(),
    decreases entries.len(),
{
    if entries.len() == 0 || updates.len() == 0 {
        Seq::empty()
    } else {
        let before = ceased(entries.drop_last(), updates.drop_last());
        match updates.last() {
            Some(_) => before,
            None => before.push(entries.last().id),
        }
    }
}

/// Refreshing keeps the identities of the contacts that go on, in their order:
/// where every contact goes on, contact `i` has after it the identity and the
/// anchors that it had before, and the geometry that was handed in for it.
pub proof fn refresh_keeps_identities(entries: Seq<TrackedContact>, updates: Seq<Option<Contact>>)
    requires
        entries.len() == updates.len(),
        forall|i: int| 0 <= i < updates.len() ==> (#[trigger] updates[i]).is_some(),
    ensures
        refreshed(entries, updates).len() == entries.len(),
        ceased(entries, updates).len() == 0,
        forall|i: int|
            0 <= i < entries.len() ==> (#[trigger] refreshed(entries, updates)[i]) == (TrackedContact {
                contact: updates[i].unwrap(),
                ..entries[i]
            }),
    decreases entries.len(),
{
    if entries.len() > 0 {
        refresh_keeps_identities(entries.drop_last(), updates.drop_last());
    }
}

/// A step on one manifold leaves the identities of another alone: a manifold
/// that owns its identities still owns them once the pool has served a
/// manifold that holds none of them and spares the rest.
pub proof fn another_manifold_keeps_its_identities(
    bystander: ContactManifold,
    served: ContactManifold,
    before: IdAllocator,
    after: IdAllocator,
)
    requires
        bystander.owns_identities(before),
        after.wf(),
        served.spares(before, after),
        forall|id: usize| !(bystander.holds(id) && #[trigger] served.holds(id)),
    ensures
        bystander.owns_identities(after),
{
    assert forall|i: int| 0 <= i < bystander.contacts().len() implies after.live(
        (#[trigger] bystander.contacts()[i]).id,
    ) by {
        let id = bystander.contacts()[i].id;
        assert(bystander.holds(id));
        assert(!served.holds(id));
        assert(before.live(id));
    }
    assert forall|i: int| 0 <= i < bystander.cache().len() implies after.live(
        (#[trigger] bystander.cache()[i]).id,
    ) by {
        let id = bystander.cache()[i].id;
        assert(bystander.holds(id));
        assert(!served.holds(id));
        assert(before.live(id));
    }
}

} // verus!
