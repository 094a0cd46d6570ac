//! The fixed-point driver: alternates the analyzer and the rewriter until a
//! pass performs no deletion and seeds no new removal candidate.
//!
//! Before every pass the transient reference set, the currently-declaring
//! guard and the run-again flag are cleared; the persistent set is never
//! cleared, because a declaration may already have been deleted in an
//! earlier pass and the set is the only surviving record that its identity
//! was referenced only by removed code. Each pass can only shrink the item
//! count and only grow the persistent set, so the loop reaches its fixed
//! point; a step bound larger than any module could ever need makes that
//! termination explicit.

use vstd::prelude::*;
use crate::ast::Module;
use crate::analyze::analyze_module;
use crate::ids::AbstractId;
use crate::rewrite::{
    all_defaults_canonical, count_defaults, pass_exact, pass_item_ok, pass_preserves, pass_quiet,
    rewrite_module,
};
use crate::state::{default_name, is_target, State};

verus! {

/// Removes the targeted exports from the module, together with every
/// declaration, import or binding referenced exclusively from inside them.
/// The literal name `default` targets the module's default export. The
/// module's bindings must already carry resolver-assigned unique
/// identities.
///
/// The item count never grows; the number of default-export slots is
/// preserved exactly, and when the default export is targeted every
/// default-export slot of the result holds a zero-argument, empty-body
/// anonymous function. No placeholder left by a deletion survives in the
/// result, no exported function declaration under a targeted name
/// survives, and no surviving named-export specifier exports under a
/// targeted name. The run is a chain of analyzer-then-rewriter passes from
/// the input to the result: each step's output and persistent set are
/// exactly what the pass model computes from its input, each step
/// preserves the module-scope bindings of untargeted identities that the
/// surviving code of its input references, and the final pass deletes
/// nothing and seeds no new candidate (short of an unreachable step
/// bound).
#[verifier::rlimit(60)]
pub fn remove_export_exprs(remove_exports: Vec<String>, module: Module) -> (r: Module)
    ensures
        r.items@.len() <= module.items@.len(),
        count_defaults(r.items@) == count_defaults(module.items@),
        is_target(remove_exports@, default_name()) ==> all_defaults_canonical(r.items@),
        forall|i: int|
            0 <= i < r.items@.len() ==> pass_item_ok(#[trigger] r.items@[i], remove_exports@),
        exists|steps: Seq<Module>, dsets: Seq<Set<AbstractId>>|
            steps.len() >= 2 && dsets.len() == steps.len() && steps[0] == module && steps[steps.len()
                - 1] == r && dsets[0] == Set::<AbstractId>::empty() && (forall|k: int|
                0 <= k < steps.len() - 1 ==> pass_preserves(
                    #[trigger] steps[k],
                    steps[k + 1],
                    remove_exports@,
                )) && (forall|k: int|
                0 <= k < steps.len() - 1 ==> pass_exact(
                    #[trigger] steps[k],
                    steps[k + 1],
                    dsets[k],
                    dsets[k + 1],
                    remove_exports@,
                )) && (pass_quiet(
                steps[steps.len() - 2],
                dsets[dsets.len() - 2],
                remove_exports@,
            ) || steps.len() == usize::MAX as int + 2),
{
    let ghost targets = remove_exports@;
    let mut st = State::new(remove_exports);
    let mut m = module;
    let ghost mut steps: Seq<Module> = seq![module];
    let ghost mut dsets: Seq<Set<AbstractId>> = seq![Set::empty()];
    let mut fuel: usize = usize::MAX;
    loop
        invariant_except_break
            steps.len() as int + fuel as int == usize::MAX as int + 1,
        invariant
            st.targets() == targets,
            m.items@.len() <= module.items@.len(),
            count_defaults(m.items@) == count_defaults(module.items@),
            steps.len() >= 1,
            dsets.len() == steps.len(),
            steps[0] == module,
            steps[steps.len() - 1] == m,
            dsets[0] == Set::<AbstractId>::empty(),
            dsets[dsets.len() - 1] == st.data_refs@,
            forall|k: int|
                0 <= k < steps.len() - 1 ==> pass_preserves(#[trigger] steps[k], steps[k + 1], targets),
            forall|k: int|
                0 <= k < steps.len() - 1 ==> pass_exact(
                    #[trigger] steps[k],
                    steps[k + 1],
                    dsets[k],
                    dsets[k + 1],
                    targets,
                ),
        ensures
            m.items@.len() <= module.items@.len(),
            count_defaults(m.items@) == count_defaults(module.items@),
            is_target(targets, default_name()) ==> all_defaults_canonical(m.items@),
            forall|i: int| 0 <= i < m.items@.len() ==> pass_item_ok(#[trigger] m.items@[i], targets),
            steps.len() >= 2,
            dsets.len() == steps.len(),
            steps[0] == module,
            steps[steps.len() - 1] == m,
            dsets[0] == Set::<AbstractId>::empty(),
            forall|k: int|
                0 <= k < steps.len() - 1 ==> pass_preserves(#[trigger] steps[k], steps[k + 1], targets),
            forall|k: int|
                0 <= k < steps.len() - 1 ==> pass_exact(
                    #[trigger] steps[k],
                    steps[k + 1],
                    dsets[k],
                    dsets[k + 1],
                    targets,
                ),
            pass_quiet(steps[steps.len() - 2], dsets[dsets.len() - 2], targets) || steps.len()
                == usize::MAX as int + 2,
        decreases fuel,
    {
        let ghost m_before = m;
        let ghost d_before = st.data_refs@;
        let ghost steps_old = steps;
        let ghost dsets_old = dsets;
        st.reset();
        let ghost st_reset = st;
        analyze_module(&m, &mut st);
        proof {
            assert(st.other_refs@ =~= crate::refs::module_other_ids(m_before, targets));
        }
        m = rewrite_module(m, &mut st);
        proof {
            assert(pass_preserves(m_before, m, targets));
            assert(pass_exact(m_before, m, d_before, st.data_refs@, targets));
            steps = steps.push(m);
            dsets = dsets.push(st.data_refs@);
            assert(steps[steps.len() - 1] == m);
            assert(dsets[dsets.len() - 1] == st.data_refs@);
            assert forall|k: int|
                0 <= k < steps.len() - 1 implies pass_preserves(
                #[trigger] steps[k],
                steps[k + 1],
                targets,
            ) by {
                if k < steps_old.len() - 1 {
                    assert(steps[k] == steps_old[k]);
                    assert(steps[k + 1] == steps_old[k + 1]);
                } else {
                    assert(steps[k] == m_before);
                    assert(steps[k + 1] == m);
                }
            }
            assert forall|k: int|
                0 <= k < steps.len() - 1 implies pass_exact(
                #[trigger] steps[k],
                steps[k + 1],
                dsets[k],
                dsets[k + 1],
                targets,
            ) by {
                if k < steps_old.len() - 1 {
                    assert(steps[k] == steps_old[k]);
                    assert(steps[k + 1] == steps_old[k + 1]);
                    assert(dsets[k] == dsets_old[k]);
                    assert(dsets[k + 1] == dsets_old[k + 1]);
                } else {
                    assert(steps[k] == m_before);
                    assert(steps[k + 1] == m);
                    assert(dsets[k] == d_before);
                    assert(dsets[k + 1] == st.data_refs@);
                }
            }
        }
        if !st.should_run_again || fuel == 0 {
            proof {
                assert(steps[steps.len() - 2] == m_before);
                assert(dsets[dsets.len() - 2] == d_before);
                if !st.should_run_again {
                    assert(pass_quiet(m_before, d_before, targets));
                } else {
                    assert(fuel == 0);
                    assert(steps.len() == usize::MAX as int + 2);
                }
            }
            break;
        }
        fuel = fuel - 1;
    }
    m
}

} // verus!
