use vstd::prelude::*;

verus! {

/// A pool of small integer identities. An identity that was given back is
/// handed out again before a new one is made, the last one given back first.
#[derive(Clone, Debug)]
pub struct IdAllocator {
    next: usize,
    released: Vec<usize>,
}

impl IdAllocator {
    /// The least identity that was never handed out.
    pub closed spec fn next(&self) -> nat {
        self.next as nat
    }

    /// The identities that were given back and wait to be handed out again.
    pub closed spec fn released(&self) -> Seq<usize> {
        self.released@
    }

    /// Whether `id` is handed out at present.
    pub open spec fn live(&self, id: usize) -> bool {
        id < self.next() && !self.released().contains(id)
    }

    /// Whether the pool can hand out one more identity.
    pub open spec fn has_room(&self) -> bool {
        self.released().len() > 0 || self.next() < usize::MAX
    }

    /// The identity that the next call of [`IdAllocator::allocate`] hands out.
    pub open spec fn upcoming(&self) -> usize {
        if self.released().len() > 0 {
            self.released().last()
        } else {
            self.next() as usize
        }
    }

    /// Whether every waiting identity was handed out once, and waits once.
    pub open spec fn wf(&self) -> bool {
        &&& self.released().no_duplicates()
        &&& forall|i: int| 0 <= i < self.released().len() ==> self.released()[i] < self.next()
    }

    pub fn new() -> (a: Self)
        ensures
            a.next() == 0,
            a.released() == Seq::<usize>::empty(),
            a.wf(),
    {
        IdAllocator { next: 0, released: Vec::new() }
    }

    /// Whether the pool can hand out one more identity.
    pub fn can_allocate(&self) -> (b: bool)
        ensures
            b == self.has_room(),
    {
        self.released.len() > 0 || self.next < usize::MAX
    }

    /// Hands out an identity.
    pub fn allocate(&mut self) -> (id: usize)
        requires
            old(self).has_room(),
        ensures
            id == old(self).upcoming(),
            old(self).released().len() > 0 ==> final(self).released() == old(
                self
            ).released().drop_last() && final(self).next() == old(self).next(),
            old(self).released().len() == 0 ==> final(self).released() == old(self).released()
                && final(self).next() == old(self).next() + 1,
            old(self).wf() ==> final(self).wf() && !old(self).live(id) && final(self).live(id),
            old(self).wf() ==> forall|other: usize|
                other != id ==> old(self).live(other) == final(self).live(other),
    {
        let ghost before = self.released@;
        match self.released.pop() {
            Some(id) => {
                proof {
                    assert(before.last() == id);
                    assert(before.contains(id)) by {
                        assert(before[before.len() - 1] == id);
                    }
                    if before.no_duplicates() {
                        assert(!self.released@.contains(id)) by {
                            if self.released@.contains(id) {
                                let k = choose|k: int|
                                    0 <= k < self.released@.len() && self.released@[k] == id;
                                assert(before[k] == id);
                            }
                        }
                        assert forall|other: usize| other != id implies before.contains(other)
                            == self.released@.contains(other) by {
                            if before.contains(other) {
                                let k = choose|k: int| 0 <= k < before.len() && before[k] == other;
                                assert(self.released@[k] == other);
                            }
                            if self.released@.contains(other) {
                                let k = choose|k: int|
                                    0 <= k < self.released@.len() && self.released@[k] == other;
                                assert(before[k] == other);
                            }
                        }
                    }
                }
                id
            },
            None => {
                let id: usize = self.next;
                self.next = self.next + 1;
                id
            },
        }
    }

    /// Takes `id` back.
    pub fn release(&mut self, id: usize)
        ensures
            final(self).released() == old(self).released().push(id),
            final(self).next() == old(self).next(),
            old(self).wf() && old(self).live(id) ==> final(self).wf() && !final(self).live(id),
            forall|other: usize| other != id ==> old(self).live(other) == final(self).live(other),
    {
        let ghost before = self.released@;
        self.released.push(id);
        proof {
            assert(self.released@[before.len() as int] == id);
            assert forall|other: usize| other != id implies before.contains(other)
                == self.released@.contains(other) by {
                if before.contains(other) {
                    let k = choose|k: int| 0 <= k < before.len() && before[k] == other;
                    assert(self.released@[k] == other);
                }
                if self.released@.contains(other) {
                    let k = choose|k: int|
                        0 <= k < self.released@.len() && self.released@[k] == other;
                    assert(before[k] == other);
                }
            }
        }
    }
}

} // verus!
