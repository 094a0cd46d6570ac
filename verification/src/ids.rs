//! Binding identities and reference sets.
//!
//! A binding identity is a pair of symbol name and scope marker, assigned by
//! an upstream resolver pass; it uniquely identifies one lexical binding
//! occurrence, stable under name shadowing. Reference sets are the two-set
//! classification state of the transform: identities referenced by surviving
//! code and identities referenced only by code slated for removal.

use vstd::prelude::*;

verus! {

/// The mathematical value of a binding identity: the symbol name as a
/// character sequence together with the scope marker.
pub type AbstractId = (Seq<char>, u64);

/// One lexical binding occurrence: a symbol name plus the scope marker the
/// resolver assigned to the scope that declared it.
#[derive(Debug, PartialEq, Eq, Hash)]
pub struct Id {
    pub sym: String,
    pub ctxt: u64,
}

impl View for Id {
    type V = AbstractId;

    open spec fn view(&self) -> AbstractId {
        (self.sym@, self.ctxt)
    }
}

impl Clone for Id {
    fn clone(&self) -> (r: Id)
        ensures
            r@ == self@,
    {
        Id { sym: self.sym.clone(), ctxt: self.ctxt }
    }
}

impl Id {
    /// Whether two identities are the same binding occurrence.
    pub fn same(&self, other: &Id) -> (r: bool)
        ensures
            r == (self@ == other@),
    {
        let syms_equal: bool = self.sym == other.sym;
        if syms_equal && self.ctxt == other.ctxt {
            proof {
                assert(self@ == other@);
            }
            true
        } else {
            proof {
                assert(self@ != other@);
            }
            false
        }
    }
}

/// A set of binding identities, viewed as a `Set` of abstract identities.
pub struct IdSet {
    pub elems: Vec<Id>,
}

impl View for IdSet {
    type V = Set<AbstractId>;

    open spec fn view(&self) -> Set<AbstractId> {
        Set::new(|a: AbstractId| exists|i: int| 0 <= i < self.elems@.len() && self.elems@[i]@ == a)
    }
}

impl IdSet {
    /// The empty reference set.
    pub fn new() -> (r: IdSet)
        ensures
            r@ == Set::<AbstractId>::empty(),
    {
        let r = IdSet { elems: Vec::new() };
        proof {
            assert(r@ =~= Set::<AbstractId>::empty());
        }
        r
    }

    /// Whether the set holds the given identity.
    pub fn contains(&self, id: &Id) -> (r: bool)
        ensures
            r == self@.contains(id@),
    {
        let mut i: usize = 0;
        while i < self.elems.len()
            invariant
                0 <= i <= self.elems@.len(),
                forall|j: int| 0 <= j < i ==> self.elems@[j]@ != id@,
            decreases self.elems@.len() - i,
        {
            if self.elems[i].same(id) {
                return true;
            }
            i = i + 1;
        }
        false
    }

    /// Adds the identity to the set.
    pub fn insert(&mut self, id: Id)
        ensures
            final(self)@ == old(self)@.insert(id@),
    {
        if !self.contains(&id) {
            let ghost pre = self.elems@;
            let ghost idv = id@;
            self.elems.push(id);
            proof {
                let post = self.elems@;
                assert forall|a: AbstractId| final(self)@.contains(a) implies old(self)@.insert(idv).contains(a) by {
                    let i = choose|i: int| 0 <= i < post.len() && post[i]@ == a;
                    if i < pre.len() {
                        assert(pre[i]@ == a);
                    }
                }
                assert forall|a: AbstractId| old(self)@.insert(idv).contains(a) implies final(self)@.contains(a) by {
                    if old(self)@.contains(a) {
                        let i = choose|i: int| 0 <= i < pre.len() && pre[i]@ == a;
                        assert(post[i]@ == a);
                    } else {
                        assert(post[pre.len() as int]@ == a);
                    }
                }
                assert(final(self)@ =~= old(self)@.insert(idv));
            }
        } else {
            proof {
                assert(final(self)@ =~= old(self)@.insert(id@));
            }
        }
    }

    /// Empties the set.
    pub fn clear(&mut self)
        ensures
            final(self)@ == Set::<AbstractId>::empty(),
    {
        self.elems.clear();
        proof {
            assert(final(self)@ =~= Set::<AbstractId>::empty());
        }
    }
}

} // verus!
