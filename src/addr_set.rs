use vstd::prelude::*;

use crate::addr::SockAddr;

verus! {

/// A finite set of socket addresses, kept as a vector without repeats in
/// the order in which the addresses were added.
#[derive(Clone, Debug)]
pub struct AddrSet {
    items: Vec<SockAddr>,
}

impl View for AddrSet {
    type V = Set<SockAddr>;

    closed spec fn view(&self) -> Set<SockAddr> {
        self.items@.to_set()
    }
}

impl AddrSet {
    /// The addresses in the order in which they were added.
    pub closed spec fn order(&self) -> Seq<SockAddr> {
        self.items@
    }

    /// The order holds each address of the set exactly once.
    pub open spec fn wf(&self) -> bool {
        &&& self.order().no_duplicates()
        &&& self.order().to_set() == self@
    }

    pub fn new() -> (r: AddrSet)
        ensures
            r.wf(),
            r@ == Set::<SockAddr>::empty(),
            r.order() == Seq::<SockAddr>::empty(),
    {
        let r = AddrSet { items: Vec::new() };
        proof {
            assert(r.items@.to_set() =~= Set::<SockAddr>::empty());
        }
        r
    }

    fn position(&self, a: SockAddr) -> (r: Option<usize>)
        ensures
            match r {
                Some(i) => i < self.items@.len() && self.items@[i as int] == a,
                None => !self.items@.contains(a),
            },
    {
        let mut i: usize = 0;
        while i < self.items.len()
            invariant
                i <= self.items@.len(),
                forall|k: int| 0 <= k < i ==> self.items@[k] != a,
            decreases self.items@.len() - i,
        {
            if self.items[i] == a {
                return Some(i);
            }
            i = i + 1;
        }
        None
    }

    pub fn contains(&self, a: SockAddr) -> (r: bool)
        ensures
            r == self@.contains(a),
    {
        self.position(a).is_some()
    }

    /// Adds `a`; returns whether it was absent.
    pub fn insert(&mut self, a: SockAddr) -> (r: bool)
        requires
            old(self).wf(),
        ensures
            final(self).wf(),
            final(self)@ == old(self)@.insert(a),
            r == !old(self)@.contains(a),
            r ==> final(self).order() == old(self).order().push(a),
            !r ==> final(self).order() == old(self).order(),
    {
        match self.position(a) {
            Some(_) => {
                proof {
                    assert(self@.insert(a) =~= self@);
                }
                false
            },
            None => {
                let ghost before = self.items@;
                self.items.push(a);
                proof {
                    assert(self.items@ == before.push(a));
                    assert forall|x: SockAddr| self.items@.contains(x) <==> (before.contains(x) || x
                        == a) by {
                        if before.contains(x) {
                            let k = choose|k: int| 0 <= k < before.len() && before[k] == x;
                            assert(self.items@[k] == x);
                        }
                        if x == a {
                            assert(self.items@[before.len() as int] == x);
                        }
                        if self.items@.contains(x) && x != a {
                            let k = choose|k: int| 0 <= k < self.items@.len() && self.items@[k] == x;
                            assert(k < before.len());
                            assert(before[k] == x);
                        }
                    }
                    assert(self.items@.to_set() =~= before.to_set().insert(a));
                    assert forall|i: int, j: int|
                        0 <= i < self.items@.len() && 0 <= j < self.items@.len() && i != j
                            implies self.items@[i] != self.items@[j] by {
                        if i < before.len() && j < before.len() {
                        } else if i < before.len() {
                            assert(before.contains(self.items@[i]));
                        } else {
                            assert(before.contains(self.items@[j]));
                        }
                    }
                }
                true
            },
        }
    }

    /// Takes `a` out; returns whether it was present.
    pub fn remove(&mut self, a: SockAddr) -> (r: bool)
        requires
            old(self).wf(),
        ensures
            final(self).wf(),
            final(self)@ == old(self)@.remove(a),
            r == old(self)@.contains(a),
            r ==> exists|i: int|
                0 <= i < old(self).order().len() && old(self).order()[i] == a
                    && final(self).order() == old(self).order().remove(i),
            !r ==> final(self).order() == old(self).order(),
    {
        match self.position(a) {
            None => {
                proof {
                    assert(self@.remove(a) =~= self@);
                }
                false
            },
            Some(i) => {
                let ghost before = self.items@;
                self.items.remove(i);
                proof {
                    let after = self.items@;
                    assert(after == before.remove(i as int));
                    assert(before[i as int] == a);
                    assert forall|x: SockAddr| after.contains(x) <==> (before.contains(x) && x
                        != a) by {
                        if before.contains(x) && x != a {
                            let k = choose|k: int| 0 <= k < before.len() && before[k] == x;
                            if k < i {
                                assert(after[k] == x);
                            } else {
                                assert(k != i);
                                assert(after[k - 1] == x);
                            }
                        }
                        if after.contains(x) {
                            let k = choose|k: int| 0 <= k < after.len() && after[k] == x;
                            if k < i {
                                assert(before[k] == x);
                            } else {
                                assert(before[k + 1] == x);
                            }
                        }
                    }
                    assert(after.to_set() =~= before.to_set().remove(a));
                    assert forall|p: int, q: int|
                        0 <= p < after.len() && 0 <= q < after.len() && p != q implies after[p]
                            != after[q] by {
                        let p2 = if p < i {
                            p
                        } else {
                            p + 1
                        };
                        let q2 = if q < i {
                            q
                        } else {
                            q + 1
                        };
                        assert(after[p] == before[p2]);
                        assert(after[q] == before[q2]);
                    }
                }
                true
            },
        }
    }

    /// Empties the set; returns what it held, in the order of addition.
    pub fn take_all(&mut self) -> (r: Vec<SockAddr>)
        requires
            old(self).wf(),
        ensures
            final(self).wf(),
            final(self)@ == Set::<SockAddr>::empty(),
            final(self).order() == Seq::<SockAddr>::empty(),
            r@ == old(self).order(),
            r@.no_duplicates(),
            r@.to_set() == old(self)@,
    {
        let mut r: Vec<SockAddr> = Vec::new();
        std::mem::swap(&mut r, &mut self.items);
        proof {
            assert(self.items@.to_set() =~= Set::<SockAddr>::empty());
        }
        r
    }

    /// The addresses in the order in which they were added.
    pub fn to_vec(&self) -> (r: Vec<SockAddr>)
        ensures
            r@ == self.order(),
    {
        let mut r: Vec<SockAddr> = Vec::new();
        let mut i: usize = 0;
        while i < self.items.len()
            invariant
                i <= self.items@.len(),
                r@ == self.items@.subrange(0, i as int),
            decreases self.items@.len() - i,
        {
            r.push(self.items[i]);
            i = i + 1;
            proof {
                assert(r@ =~= self.items@.subrange(0, i as int));
            }
        }
        proof {
            assert(self.items@.subrange(0, i as int) =~= self.items@);
        }
        r
    }
}

} // verus!
