//! The cross-pass analysis state shared by the analyzer and the rewriter.
//!
//! The state holds the two reference sets of the classification — the
//! transient set of identities referenced by surviving code, recomputed each
//! pass, and the persistent set of identities referenced only from code
//! slated for removal, accumulated across passes — together with the removal
//! targets, the run-again flag that drives the fixed-point loop, and a
//! currently-declaring guard kept as an extension point for self-referential
//! bindings (nothing populates it here).

use vstd::prelude::*;
use vstd::string::StringExecFns;
use crate::ids::{AbstractId, Id, IdSet};

verus! {

/// Whether `sym` is one of the configured removal targets.
pub open spec fn is_target(targets: Seq<String>, sym: Seq<char>) -> bool {
    exists|i: int| 0 <= i < targets.len() && targets[i]@ == sym
}

/// The exported name that stands for the module's default export.
pub open spec fn default_name() -> Seq<char> {
    "default"@
}

/// The mutable state of one transform invocation.
pub struct State {
    /// Identities referenced by code that is not under a removal-marked
    /// sub-tree, as observed in the current pass. Cleared before every pass.
    pub other_refs: IdSet,
    /// Identities referenced only from removal-marked sub-trees, accumulated
    /// monotonically across passes and never cleared.
    pub data_refs: IdSet,
    /// Guard meant to suppress self-reference while a binding is being
    /// declared; an extension point, never populated by this transform.
    pub cur_declaring: IdSet,
    /// Set whenever the rewriter deletes a node or seeds a new candidate.
    pub should_run_again: bool,
    /// The configured export names to remove.
    pub remove_exports: Vec<String>,
}

/// How one traversal changes the state: it records exactly the identities
/// `ids` — into the persistent set when the traversal runs inside a
/// removal-marked sub-tree (`in_data`), otherwise into the transient set,
/// where the currently-declaring guard filters insertions — and touches
/// nothing else.
pub open spec fn recorded(pre: State, post: State, ids: Set<AbstractId>, in_data: bool) -> bool {
    &&& post.remove_exports == pre.remove_exports
    &&& post.cur_declaring == pre.cur_declaring
    &&& post.should_run_again == pre.should_run_again
    &&& if in_data {
        post.data_refs@ == pre.data_refs@ + ids && post.other_refs@ == pre.other_refs@
    } else {
        post.other_refs@ == pre.other_refs@ + ids.difference(pre.cur_declaring@)
            && post.data_refs@ == pre.data_refs@
    }
}

/// Recording nothing leaves the state as it is.
pub proof fn lemma_recorded_empty(s: State, in_data: bool)
    ensures
        recorded(s, s, Set::empty(), in_data),
{
    assert(s.data_refs@ + Set::<AbstractId>::empty() =~= s.data_refs@);
    assert(Set::<AbstractId>::empty().difference(s.cur_declaring@) =~= Set::<AbstractId>::empty());
    assert(s.other_refs@ + Set::<AbstractId>::empty() =~= s.other_refs@);
}

/// Two recordings in a row record the union.
pub proof fn lemma_recorded_trans(
    s1: State,
    s2: State,
    s3: State,
    a: Set<AbstractId>,
    b: Set<AbstractId>,
    in_data: bool,
)
    requires
        recorded(s1, s2, a, in_data),
        recorded(s2, s3, b, in_data),
    ensures
        recorded(s1, s3, a + b, in_data),
{
    if in_data {
        assert(s3.data_refs@ =~= s1.data_refs@ + (a + b));
    } else {
        assert((a + b).difference(s1.cur_declaring@) =~= a.difference(s1.cur_declaring@)
            + b.difference(s1.cur_declaring@));
        assert(s3.other_refs@ =~= s1.other_refs@ + (a + b).difference(s1.cur_declaring@));
    }
}

/// How a traversal that crosses context boundaries changes the state: it
/// records `o` into the transient set (filtered by the currently-declaring
/// guard) and `d` into the persistent set, and touches nothing else.
pub open spec fn recorded2(pre: State, post: State, o: Set<AbstractId>, d: Set<AbstractId>) -> bool {
    &&& post.remove_exports == pre.remove_exports
    &&& post.cur_declaring == pre.cur_declaring
    &&& post.should_run_again == pre.should_run_again
    &&& post.other_refs@ == pre.other_refs@ + o.difference(pre.cur_declaring@)
    &&& post.data_refs@ == pre.data_refs@ + d
}

/// A one-context recording is a two-set recording with one side empty.
pub proof fn lemma_recorded_to_recorded2(
    s1: State,
    s2: State,
    ids: Set<AbstractId>,
    in_data: bool,
)
    requires
        recorded(s1, s2, ids, in_data),
    ensures
        in_data ==> recorded2(s1, s2, Set::empty(), ids),
        !in_data ==> recorded2(s1, s2, ids, Set::empty()),
{
    if in_data {
        assert(Set::<AbstractId>::empty().difference(s1.cur_declaring@)
            =~= Set::<AbstractId>::empty());
        assert(s2.other_refs@ =~= s1.other_refs@ + Set::<AbstractId>::empty().difference(
            s1.cur_declaring@,
        ));
    } else {
        assert(s2.data_refs@ =~= s1.data_refs@ + Set::<AbstractId>::empty());
    }
}

/// Recording nothing into either set leaves the state as it is.
pub proof fn lemma_recorded2_empty(s: State)
    ensures
        recorded2(s, s, Set::empty(), Set::empty()),
{
    lemma_recorded_empty(s, true);
    lemma_recorded_to_recorded2(s, s, Set::empty(), true);
}

/// Two two-set recordings in a row record the unions.
pub proof fn lemma_recorded2_trans(
    s1: State,
    s2: State,
    s3: State,
    o1: Set<AbstractId>,
    d1: Set<AbstractId>,
    o2: Set<AbstractId>,
    d2: Set<AbstractId>,
)
    requires
        recorded2(s1, s2, o1, d1),
        recorded2(s2, s3, o2, d2),
    ensures
        recorded2(s1, s3, o1 + o2, d1 + d2),
{
    assert((o1 + o2).difference(s1.cur_declaring@) =~= o1.difference(s1.cur_declaring@)
        + o2.difference(s1.cur_declaring@));
    assert(s3.other_refs@ =~= s1.other_refs@ + (o1 + o2).difference(s1.cur_declaring@));
    assert(s3.data_refs@ =~= s1.data_refs@ + (d1 + d2));
}

/// The two-set classification invariant. An identity present in both
/// reference sets is preserved: the transient set wins over the persistent
/// one. An identity present only in the persistent set is eligible for
/// removal.
pub proof fn lemma_classification(st: State, a: AbstractId)
    ensures
        st.other_refs@.contains(a) ==> !st.removable(a),
        (st.data_refs@.contains(a) && !st.other_refs@.contains(a)) ==> st.removable(a),
{
}

impl State {
    /// The configured removal targets, as the contracts speak of them.
    pub open spec fn targets(self) -> Seq<String> {
        self.remove_exports@
    }

    /// Removal eligibility: referenced only from removal-marked sub-trees
    /// and by nothing that survives. The transient set wins over the
    /// persistent one.
    pub open spec fn removable(self, a: AbstractId) -> bool {
        self.data_refs@.contains(a) && !self.other_refs@.contains(a)
    }

    /// Fresh state for one invocation.
    pub fn new(remove_exports: Vec<String>) -> (r: State)
        ensures
            r.other_refs@ == Set::<AbstractId>::empty(),
            r.data_refs@ == Set::<AbstractId>::empty(),
            r.cur_declaring@ == Set::<AbstractId>::empty(),
            r.should_run_again == false,
            r.remove_exports == remove_exports,
    {
        State {
            other_refs: IdSet::new(),
            data_refs: IdSet::new(),
            cur_declaring: IdSet::new(),
            should_run_again: false,
            remove_exports,
        }
    }

    /// Whether the given symbol names a targeted export.
    pub fn is_removal_target(&self, sym: &String) -> (r: bool)
        ensures
            r == is_target(self.targets(), sym@),
    {
        let mut i: usize = 0;
        while i < self.remove_exports.len()
            invariant
                0 <= i <= self.remove_exports@.len(),
                forall|j: int| 0 <= j < i ==> self.remove_exports@[j]@ != sym@,
            decreases self.remove_exports@.len() - i,
        {
            if self.remove_exports[i] == *sym {
                return true;
            }
            i = i + 1;
        }
        false
    }

    /// Whether the identifier's symbol names a targeted export.
    pub fn should_remove_identifier(&self, id: &Id) -> (r: bool)
        ensures
            r == is_target(self.targets(), id.sym@),
    {
        self.is_removal_target(&id.sym)
    }

    /// Whether the module's default export is targeted.
    pub fn should_remove_default(&self) -> (r: bool)
        ensures
            r == is_target(self.targets(), default_name()),
    {
        let d = String::from_str("default");
        self.is_removal_target(&d)
    }

    /// Whether the identity may be removed by the current pass.
    pub fn should_remove(&self, id: &Id) -> (r: bool)
        ensures
            r == self.removable(id@),
    {
        self.data_refs.contains(id) && !self.other_refs.contains(id)
    }

    /// Records one identifier use: into the persistent set inside a
    /// removal-marked sub-tree, otherwise into the transient set unless the
    /// currently-declaring guard suppresses it.
    pub fn add_ref(&mut self, id: Id, in_data: bool)
        ensures
            recorded(*old(self), *final(self), Set::empty().insert(id@), in_data),
    {
        let ghost idv = id@;
        if in_data {
            self.data_refs.insert(id);
            proof {
                assert(final(self).data_refs@ =~= old(self).data_refs@ + Set::empty().insert(idv));
            }
        } else {
            if self.cur_declaring.contains(&id) {
                proof {
                    assert(Set::empty().insert(idv).difference(old(self).cur_declaring@)
                        =~= Set::<AbstractId>::empty());
                    assert(final(self).other_refs@ =~= old(self).other_refs@
                        + Set::empty().insert(idv).difference(old(self).cur_declaring@));
                }
                return ;
            }
            self.other_refs.insert(id);
            proof {
                assert(final(self).other_refs@ =~= old(self).other_refs@ + Set::empty().insert(
                    idv,
                ).difference(old(self).cur_declaring@));
            }
        }
    }

    /// Clears the per-pass state — the transient set, the guard and the
    /// run-again flag — and keeps the persistent set and the targets.
    pub fn reset(&mut self)
        ensures
            final(self).other_refs@ == Set::<AbstractId>::empty(),
            final(self).cur_declaring@ == Set::<AbstractId>::empty(),
            final(self).should_run_again == false,
            final(self).data_refs == old(self).data_refs,
            final(self).remove_exports == old(self).remove_exports,
    {
        self.other_refs.clear();
        self.cur_declaring.clear();
        self.should_run_again = false;
    }
}

} // verus!
