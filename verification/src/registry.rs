//! Bookkeeping for in-flight reads.
//!
//! The read manager keys each active read by the blob's name; starting a
//! second read under a name already present replaces that entry. The entry is
//! advisory only: dropping it never cancels the read it stood for, so the set
//! of names here is exactly the bookkeeping state, not the set of reads that
//! will still complete.

use vstd::prelude::*;

verus! {

/// The names under which a read is currently tracked. At most one entry per
/// name, so the value is a set of names.
pub struct PendingReads {
    names: Vec<String>,
}

impl View for PendingReads {
    type V = Set<Seq<char>>;

    closed spec fn view(&self) -> Set<Seq<char>> {
        Set::new(|q: Seq<char>| exists|i: int| 0 <= i < self.names@.len() && self.names@[i]@ == q)
    }
}

impl PendingReads {
    /// No name is tracked twice.
    pub closed spec fn wf(&self) -> bool {
        forall|i: int, j: int|
            0 <= i < j < self.names@.len() ==> self.names@[i]@ != self.names@[j]@
    }

    /// An empty registry: no read is in flight.
    pub fn new() -> (r: Self)
        ensures
            r@ == Set::<Seq<char>>::empty(),
            r.wf(),
    {
        let r = PendingReads { names: Vec::new() };
        proof {
            assert(r@ =~= Set::<Seq<char>>::empty());
        }
        r
    }

    fn position_of(&self, name: &String) -> (r: Option<usize>)
        ensures
            match r {
                Some(i) => i < self.names@.len() && self.names@[i as int]@ == name@,
                None => !self@.contains(name@),
            },
    {
        let n = self.names.len();
        let mut i: usize = 0;
        while i < n
            invariant
                i <= n,
                n == self.names@.len(),
                forall|k: int| 0 <= k < i ==> self.names@[k]@ != name@,
            decreases n - i,
        {
            if self.names[i] == *name {
                return Some(i);
            }
            i += 1;
        }
        None
    }

    /// Tracks a read under `name`, replacing any read already tracked there.
    pub fn insert(&mut self, name: String)
        requires
            old(self).wf(),
        ensures
            final(self).wf(),
            final(self)@ == old(self)@.insert(name@),
    {
        let found = self.position_of(&name);
        match found {
            Some(_) => {
                proof {
                    assert(old(self)@.contains(name@));
                    assert(self@ =~= old(self)@.insert(name@));
                }
            },
            None => {
                self.names.push(name);
                proof {
                    assert forall|q: Seq<char>| self@.contains(q) implies old(self)@.insert(
                        name@,
                    ).contains(q) by {
                        let i = choose|i: int|
                            0 <= i < self.names@.len() && self.names@[i]@ == q;
                        if i < self.names@.len() - 1 {
                            assert(old(self).names@[i]@ == q);
                        }
                    }
                    assert forall|q: Seq<char>| old(self)@.insert(name@).contains(q) implies
                        self@.contains(q) by {
                        if old(self)@.contains(q) {
                            let i = choose|i: int|
                                0 <= i < old(self).names@.len() && old(self).names@[i]@ == q;
                            assert(self.names@[i]@ == q);
                        } else {
                            assert(self.names@[self.names@.len() - 1]@ == q);
                        }
                    }
                    assert(self@ =~= old(self)@.insert(name@));
                }
            },
        }
    }

    /// Forgets the read tracked under `name`, if any.
    pub fn remove(&mut self, name: &String)
        requires
            old(self).wf(),
        ensures
            final(self).wf(),
            final(self)@ == old(self)@.remove(name@),
    {
        let found = self.position_of(name);
        match found {
            Some(i) => {
                self.names.remove(i);
                proof {
                    assert forall|q: Seq<char>| self@.contains(q) implies old(self)@.remove(
                        name@,
                    ).contains(q) by {
                        let k = choose|k: int|
                            0 <= k < self.names@.len() && self.names@[k]@ == q;
                        if k < i {
                            assert(old(self).names@[k]@ == q);
                        } else {
                            assert(old(self).names@[k + 1]@ == q);
                        }
                    }
                    assert forall|q: Seq<char>| old(self)@.remove(name@).contains(q) implies
                        self@.contains(q) by {
                        let k = choose|k: int|
                            0 <= k < old(self).names@.len() && old(self).names@[k]@ == q;
                        if k < i {
                            assert(self.names@[k]@ == q);
                        } else {
                            assert(k != i);
                            assert(self.names@[k - 1]@ == q);
                        }
                    }
                    assert(self@ =~= old(self)@.remove(name@));
                }
            },
            None => {
                proof {
                    assert(self@ =~= old(self)@.remove(name@));
                }
            },
        }
    }
}

} // verus!
