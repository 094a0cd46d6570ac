//! The reachability analyzer: a read-only traversal that classifies every
//! referenced identity into one of the two reference sets.
//!
//! Each function records exactly the identities its reference model names
//! (see [`crate::refs`]) and alters nothing else; the tree is only read.
//! The `in_data` flag is the removal-marked context, inherited permanently
//! downward. The same traversal run with `in_data` fixed to `true` is the
//! candidate marker the rewriter uses to seed orphaned sub-trees.

use vstd::prelude::*;
use crate::ast::{
    Decl, DefaultDecl, ElemTag, Expr, ExportSpecifier, Func, Module, ModuleItem, ObjPatProp,
    ObjProp, Pat, Stmt, VarDeclarator,
};
use crate::refs::{
    assign_target_ids, declarator_ids, declarators_ids, decl_ids, export_spec_other_ids,
    export_specs_other_ids, exp_declarator_data_ids, exp_declarator_other_ids,
    exp_declarators_data_ids, exp_declarators_other_ids, expr_ids, exprs_ids, func_ids,
    item_data_ids, item_other_ids, items_data_ids, items_other_ids, module_data_ids,
    module_other_ids, opt_expr_ids, opt_name_ids, opt_pat_ids, opt_pats_ids, pat_ids, pat_prop_ids,
    pat_props_ids, pats_ids, prop_ids, props_ids, stmt_ids, stmts_ids, tag_root,
};
use crate::state::{
    is_target, lemma_recorded2_empty, lemma_recorded2_trans, lemma_recorded_empty,
    lemma_recorded_to_recorded2, lemma_recorded_trans, recorded, recorded2, State,
};
use crate::ids::AbstractId;

verus! {

broadcast use vstd::std_specs::vec::axiom_vec_index_decreases;

/// Records the leftmost identity of a member-style tag reference.
pub fn analyze_tag(t: &ElemTag, in_data: bool, st: &mut State)
    ensures
        recorded(*old(st), *final(st), Set::empty().insert(tag_root(*t)), in_data),
    decreases *t,
{
    match t {
        ElemTag::Ident(id) => {
            st.add_ref(id.clone(), in_data);
        },
        ElemTag::Member(inner) => {
            analyze_tag(&**inner, in_data, st);
        },
    }
}

/// Records every identifier use under an expression.
pub fn analyze_expr(e: &Expr, in_data: bool, st: &mut State)
    ensures
        recorded(*old(st), *final(st), expr_ids(*e, in_data), in_data),
    decreases *e, 0int,
{
    match e {
        Expr::Ident(id) => {
            st.add_ref(id.clone(), in_data);
        },
        Expr::Lit => {
            proof {
                lemma_recorded_empty(*st, in_data);
            }
        },
        Expr::Member(obj) => {
            analyze_expr(&**obj, in_data, st);
        },
        Expr::Call(callee, args) => {
            let ghost s0 = *st;
            analyze_expr(&**callee, in_data, st);
            let ghost s1 = *st;
            analyze_exprs(args, in_data, st);
            proof {
                lemma_recorded_trans(
                    s0,
                    s1,
                    *st,
                    expr_ids(**callee, in_data),
                    exprs_ids(*args, args@.len() as int, in_data),
                    in_data,
                );
            }
        },
        Expr::Fun(name, func) => {
            let ghost s0 = *st;
            match name {
                Some(id) => {
                    st.add_ref(id.clone(), in_data);
                },
                None => {
                    proof {
                        lemma_recorded_empty(*st, in_data);
                    }
                },
            }
            let ghost s1 = *st;
            analyze_func(func, in_data, st);
            proof {
                lemma_recorded_trans(
                    s0,
                    s1,
                    *st,
                    opt_name_ids(*name),
                    func_ids(*func, in_data),
                    in_data,
                );
            }
        },
        Expr::Object(props) => {
            analyze_props(props, in_data, st);
        },
        Expr::Elem(tag, children) => {
            let ghost s0 = *st;
            analyze_tag(tag, in_data, st);
            let ghost s1 = *st;
            analyze_exprs(children, in_data, st);
            proof {
                lemma_recorded_trans(
                    s0,
                    s1,
                    *st,
                    Set::empty().insert(tag_root(*tag)),
                    exprs_ids(*children, children@.len() as int, in_data),
                    in_data,
                );
            }
        },
    }
}

/// Records every identifier use under a list of expressions.
pub fn analyze_exprs(v: &Vec<Expr>, in_data: bool, st: &mut State)
    ensures
        recorded(*old(st), *final(st), exprs_ids(*v, v@.len() as int, in_data), in_data),
    decreases *v, 1int,
{
    let ghost s0 = *st;
    proof {
        lemma_recorded_empty(s0, in_data);
    }
    let mut i: usize = 0;
    while i < v.len()
        invariant
            0 <= i <= v@.len(),
            recorded(s0, *st, exprs_ids(*v, i as int, in_data), in_data),
        decreases v@.len() - i,
    {
        let ghost s1 = *st;
        analyze_expr(&v[i], in_data, st);
        proof {
            lemma_recorded_trans(
                s0,
                s1,
                *st,
                exprs_ids(*v, i as int, in_data),
                expr_ids(v@[i as int], in_data),
                in_data,
            );
        }
        i = i + 1;
    }
}

/// Records every identifier use under a list of object-literal properties.
pub fn analyze_props(v: &Vec<ObjProp>, in_data: bool, st: &mut State)
    ensures
        recorded(*old(st), *final(st), props_ids(*v, v@.len() as int, in_data), in_data),
    decreases *v, 1int,
{
    let ghost s0 = *st;
    proof {
        lemma_recorded_empty(s0, in_data);
    }
    let mut i: usize = 0;
    while i < v.len()
        invariant
            0 <= i <= v@.len(),
            recorded(s0, *st, props_ids(*v, i as int, in_data), in_data),
        decreases v@.len() - i,
    {
        let ghost s1 = *st;
        match &v[i] {
            ObjProp::Shorthand(id) => {
                st.add_ref(id.clone(), in_data);
            },
            ObjProp::KeyValue(e) => {
                analyze_expr(&**e, in_data, st);
            },
        }
        proof {
            lemma_recorded_trans(
                s0,
                s1,
                *st,
                props_ids(*v, i as int, in_data),
                prop_ids(v@[i as int], in_data),
                in_data,
            );
        }
        i = i + 1;
    }
}

/// Records every identifier use under a pattern; binding identifiers on a
/// declarator's left-hand side count only inside the removal-marked context.
pub fn analyze_pat(p: &Pat, in_data: bool, in_lhs: bool, st: &mut State)
    ensures
        recorded(*old(st), *final(st), pat_ids(*p, in_data, in_lhs), in_data),
    decreases *p, 2int,
{
    match p {
        Pat::Ident(id) => {
            if !in_lhs || in_data {
                st.add_ref(id.clone(), in_data);
            } else {
                proof {
                    lemma_recorded_empty(*st, in_data);
                }
            }
        },
        Pat::Array(elems) => {
            analyze_opt_pats(elems, in_data, in_lhs, st);
        },
        Pat::Object(props) => {
            analyze_pat_props(props, in_data, in_lhs, st);
        },
        Pat::Rest(inner) => {
            analyze_pat(&**inner, in_data, in_lhs, st);
        },
        Pat::Invalid => {
            proof {
                lemma_recorded_empty(*st, in_data);
            }
        },
    }
}

/// Records every identifier use under the elements of an array pattern.
pub fn analyze_opt_pats(v: &Vec<Option<Pat>>, in_data: bool, in_lhs: bool, st: &mut State)
    ensures
        recorded(*old(st), *final(st), opt_pats_ids(*v, v@.len() as int, in_data, in_lhs), in_data),
    decreases *v, 4int,
{
    let ghost s0 = *st;
    proof {
        lemma_recorded_empty(s0, in_data);
    }
    let mut i: usize = 0;
    while i < v.len()
        invariant
            0 <= i <= v@.len(),
            recorded(s0, *st, opt_pats_ids(*v, i as int, in_data, in_lhs), in_data),
        decreases v@.len() - i,
    {
        let ghost s1 = *st;
        analyze_opt_pat(&v[i], in_data, in_lhs, st);
        proof {
            lemma_recorded_trans(
                s0,
                s1,
                *st,
                opt_pats_ids(*v, i as int, in_data, in_lhs),
                opt_pat_ids(v@[i as int], in_data, in_lhs),
                in_data,
            );
        }
        i = i + 1;
    }
}

/// Records every identifier use under one element of an array pattern.
pub fn analyze_opt_pat(op: &Option<Pat>, in_data: bool, in_lhs: bool, st: &mut State)
    ensures
        recorded(*old(st), *final(st), opt_pat_ids(*op, in_data, in_lhs), in_data),
    decreases *op, 3int,
{
    match op {
        Some(sub) => {
            analyze_pat(sub, in_data, in_lhs, st);
        },
        None => {
            proof {
                lemma_recorded_empty(*st, in_data);
            }
        },
    }
}

/// Records every identifier use under an optional initializer or
/// default-value expression.
pub fn analyze_opt_expr(oe: &Option<Box<Expr>>, in_data: bool, st: &mut State)
    ensures
        recorded(*old(st), *final(st), opt_expr_ids(*oe, in_data), in_data),
    decreases *oe, 1int,
{
    match oe {
        Some(e) => {
            analyze_expr(&**e, in_data, st);
        },
        None => {
            proof {
                lemma_recorded_empty(*st, in_data);
            }
        },
    }
}

/// Records every identifier use under a list of object-pattern sub-patterns.
pub fn analyze_pat_props(v: &Vec<ObjPatProp>, in_data: bool, in_lhs: bool, st: &mut State)
    ensures
        recorded(*old(st), *final(st), pat_props_ids(*v, v@.len() as int, in_data, in_lhs), in_data),
    decreases *v, 3int,
{
    let ghost s0 = *st;
    proof {
        lemma_recorded_empty(s0, in_data);
    }
    let mut i: usize = 0;
    while i < v.len()
        invariant
            0 <= i <= v@.len(),
            recorded(s0, *st, pat_props_ids(*v, i as int, in_data, in_lhs), in_data),
        decreases v@.len() - i,
    {
        let ghost s1 = *st;
        analyze_pat_prop(&v[i], in_data, in_lhs, st);
        proof {
            lemma_recorded_trans(
                s0,
                s1,
                *st,
                pat_props_ids(*v, i as int, in_data, in_lhs),
                pat_prop_ids(v@[i as int], in_data, in_lhs),
                in_data,
            );
        }
        i = i + 1;
    }
}

/// Records every identifier use under one object-pattern sub-pattern.
pub fn analyze_pat_prop(p: &ObjPatProp, in_data: bool, in_lhs: bool, st: &mut State)
    ensures
        recorded(*old(st), *final(st), pat_prop_ids(*p, in_data, in_lhs), in_data),
    decreases *p, 2int,
{
    match p {
        ObjPatProp::KeyValue(sub) => {
            analyze_pat(&**sub, in_data, in_lhs, st);
        },
        ObjPatProp::Assign(key, dflt) => {
            let ghost s0 = *st;
            if !in_lhs || in_data {
                st.add_ref(key.clone(), in_data);
            } else {
                proof {
                    lemma_recorded_empty(*st, in_data);
                }
            }
            let ghost s1 = *st;
            analyze_opt_expr(dflt, in_data, st);
            proof {
                let key_set = if !in_lhs || in_data {
                    Set::empty().insert(key@)
                } else {
                    Set::<crate::ids::AbstractId>::empty()
                };
                lemma_recorded_trans(
                    s0,
                    s1,
                    *st,
                    key_set,
                    opt_expr_ids(*dflt, in_data),
                    in_data,
                );
            }
        },
        ObjPatProp::Rest(sub) => {
            analyze_pat(&**sub, in_data, in_lhs, st);
        },
    }
}

/// Records every identifier use under a function: its parameters, then its
/// body.
pub fn analyze_func(f: &Func, in_data: bool, st: &mut State)
    ensures
        recorded(*old(st), *final(st), func_ids(*f, in_data), in_data),
    decreases *f, 4int,
{
    let ghost s0 = *st;
    analyze_pats(&f.params, in_data, false, st);
    let ghost s2 = *st;
    analyze_stmts(&f.body, in_data, st);
    proof {
        lemma_recorded_trans(
            s0,
            s2,
            *st,
            pats_ids(f.params, f.params@.len() as int, in_data, false),
            stmts_ids(f.body, f.body@.len() as int, in_data),
            in_data,
        );
    }
}

/// Records every identifier use under a list of patterns.
pub fn analyze_pats(v: &Vec<Pat>, in_data: bool, in_lhs: bool, st: &mut State)
    ensures
        recorded(*old(st), *final(st), pats_ids(*v, v@.len() as int, in_data, in_lhs), in_data),
    decreases *v, 3int,
{
    let ghost s0 = *st;
    proof {
        lemma_recorded_empty(s0, in_data);
    }
    let mut i: usize = 0;
    while i < v.len()
        invariant
            0 <= i <= v@.len(),
            recorded(s0, *st, pats_ids(*v, i as int, in_data, in_lhs), in_data),
        decreases v@.len() - i,
    {
        let ghost s1 = *st;
        analyze_pat(&v[i], in_data, in_lhs, st);
        proof {
            lemma_recorded_trans(
                s0,
                s1,
                *st,
                pats_ids(*v, i as int, in_data, in_lhs),
                pat_ids(v@[i as int], in_data, in_lhs),
                in_data,
            );
        }
        i = i + 1;
    }
}

/// Records every identifier use under a list of statements.
pub fn analyze_stmts(v: &Vec<Stmt>, in_data: bool, st: &mut State)
    ensures
        recorded(*old(st), *final(st), stmts_ids(*v, v@.len() as int, in_data), in_data),
    decreases *v, 5int,
{
    let ghost s0 = *st;
    proof {
        lemma_recorded_empty(s0, in_data);
    }
    let mut i: usize = 0;
    while i < v.len()
        invariant
            0 <= i <= v@.len(),
            recorded(s0, *st, stmts_ids(*v, i as int, in_data), in_data),
        decreases v@.len() - i,
    {
        let ghost s1 = *st;
        analyze_stmt(&v[i], in_data, st);
        proof {
            lemma_recorded_trans(
                s0,
                s1,
                *st,
                stmts_ids(*v, i as int, in_data),
                stmt_ids(v@[i as int], in_data),
                in_data,
            );
        }
        i = i + 1;
    }
}

/// Records every identifier use under a statement.
pub fn analyze_stmt(s: &Stmt, in_data: bool, st: &mut State)
    ensures
        recorded(*old(st), *final(st), stmt_ids(*s, in_data), in_data),
    decreases *s, 4int,
{
    match s {
        Stmt::Decl(d) => {
            analyze_decl(d, in_data, st);
        },
        Stmt::Expr(e) => {
            analyze_expr(e, in_data, st);
        },
        Stmt::Ret(Some(e)) => {
            analyze_expr(e, in_data, st);
        },
        Stmt::Ret(None) => {
            proof {
                lemma_recorded_empty(*st, in_data);
            }
        },
        Stmt::Empty => {
            proof {
                lemma_recorded_empty(*st, in_data);
            }
        },
    }
}

/// Records every identifier use under a declaration; a function
/// declaration's own name is a use only in the removal-marked context.
pub fn analyze_decl(d: &Decl, in_data: bool, st: &mut State)
    ensures
        recorded(*old(st), *final(st), decl_ids(*d, in_data), in_data),
    decreases *d, 3int,
{
    match d {
        Decl::Fun(name, func) => {
            let ghost s0 = *st;
            if in_data {
                st.add_ref(name.clone(), in_data);
            } else {
                proof {
                    lemma_recorded_empty(*st, in_data);
                }
            }
            let ghost s1 = *st;
            analyze_func(func, in_data, st);
            proof {
                let name_set = if in_data {
                    Set::empty().insert(name@)
                } else {
                    Set::<crate::ids::AbstractId>::empty()
                };
                lemma_recorded_trans(s0, s1, *st, name_set, func_ids(*func, in_data), in_data);
            }
        },
        Decl::Var(decls) => {
            analyze_declarators(decls, in_data, st);
        },
    }
}

/// Records every identifier use under a list of variable declarators.
pub fn analyze_declarators(v: &Vec<VarDeclarator>, in_data: bool, st: &mut State)
    ensures
        recorded(*old(st), *final(st), declarators_ids(*v, v@.len() as int, in_data), in_data),
    decreases *v, 2int,
{
    let ghost s0 = *st;
    proof {
        lemma_recorded_empty(s0, in_data);
    }
    let mut i: usize = 0;
    while i < v.len()
        invariant
            0 <= i <= v@.len(),
            recorded(s0, *st, declarators_ids(*v, i as int, in_data), in_data),
        decreases v@.len() - i,
    {
        let ghost s1 = *st;
        analyze_declarator(&v[i], in_data, st);
        proof {
            lemma_recorded_trans(
                s0,
                s1,
                *st,
                declarators_ids(*v, i as int, in_data),
                declarator_ids(v@[i as int], in_data),
                in_data,
            );
        }
        i = i + 1;
    }
}

/// Records every identifier use under one declarator: its name pattern as a
/// declarator left-hand side, then its initializer.
pub fn analyze_declarator(d: &VarDeclarator, in_data: bool, st: &mut State)
    ensures
        recorded(*old(st), *final(st), declarator_ids(*d, in_data), in_data),
    decreases *d, 3int,
{
    let ghost s0 = *st;
    analyze_pat(&d.name, in_data, true, st);
    let ghost s1 = *st;
    analyze_opt_expr(&d.init, in_data, st);
    proof {
        lemma_recorded_trans(
            s0,
            s1,
            *st,
            pat_ids(d.name, in_data, true),
            opt_expr_ids(d.init, in_data),
            in_data,
        );
    }
}

/// Classifies one exported variable declarator. A declarator whose name is
/// a plain identifier naming a removal target is wholly removal-marked; an
/// exported destructuring pattern instead has its targeted shorthand keys
/// seeded into the persistent set, and everything else recorded as
/// surviving uses.
pub fn analyze_export_declarator(d: &VarDeclarator, st: &mut State)
    ensures
        recorded2(
            *old(st),
            *final(st),
            exp_declarator_other_ids(*d, old(st).targets()),
            exp_declarator_data_ids(*d, old(st).targets()),
        ),
{
    let ghost tv = st.targets();
    let mut marked = false;
    match &d.name {
        Pat::Ident(id) => {
            if st.should_remove_identifier(id) {
                marked = true;
            }
        },
        _ => {},
    }
    if marked {
        let ghost s0 = *st;
        analyze_declarator(d, true, st);
        proof {
            lemma_recorded_to_recorded2(s0, *st, declarator_ids(*d, true), true);
        }
    } else {
        let ghost s0 = *st;
        match &d.name {
            Pat::Object(props) => {
                proof {
                    lemma_recorded_empty(s0, true);
                }
                let mut i: usize = 0;
                while i < props.len()
                    invariant
                        0 <= i <= props@.len(),
                        recorded(s0, *st, assign_target_ids(*props, i as int, tv), true),
                        st.targets() == tv,
                    decreases props@.len() - i,
                {
                    let ghost s1 = *st;
                    match &props[i] {
                        ObjPatProp::Assign(key, _) => {
                            if st.should_remove_identifier(key) {
                                st.add_ref(key.clone(), true);
                            } else {
                                proof {
                                    lemma_recorded_empty(*st, true);
                                }
                            }
                        },
                        _ => {
                            proof {
                                lemma_recorded_empty(*st, true);
                            }
                        },
                    }
                    proof {
                        let elem: Set<AbstractId> = match props@[i as int] {
                            ObjPatProp::Assign(key, _) => if is_target(tv, key.sym@) {
                                Set::empty().insert(key@)
                            } else {
                                Set::empty()
                            },
                            _ => Set::empty(),
                        };
                        lemma_recorded_trans(
                            s0,
                            s1,
                            *st,
                            assign_target_ids(*props, i as int, tv),
                            elem,
                            true,
                        );
                    }
                    i = i + 1;
                }
                let ghost s2 = *st;
                analyze_declarator(d, false, st);
                proof {
                    let seeded = assign_target_ids(*props, props@.len() as int, tv);
                    lemma_recorded_to_recorded2(s0, s2, seeded, true);
                    lemma_recorded_to_recorded2(s2, *st, declarator_ids(*d, false), false);
                    lemma_recorded2_trans(
                        s0,
                        s2,
                        *st,
                        Set::empty(),
                        seeded,
                        declarator_ids(*d, false),
                        Set::empty(),
                    );
                    assert(Set::empty() + declarator_ids(*d, false) =~= declarator_ids(*d, false));
                    assert(seeded + Set::empty() =~= seeded);
                }
            },
            _ => {
                analyze_declarator(d, false, st);
                proof {
                    lemma_recorded_to_recorded2(s0, *st, declarator_ids(*d, false), false);
                }
            },
        }
    }
}

/// Classifies every reference under one module item, with the
/// removal-marked context decided by the removal targets.
pub fn analyze_item(item: &ModuleItem, st: &mut State)
    ensures
        recorded2(
            *old(st),
            *final(st),
            item_other_ids(*item, old(st).targets()),
            item_data_ids(*item, old(st).targets()),
        ),
{
    let ghost tv = st.targets();
    match item {
        ModuleItem::Import(_) => {
            proof {
                lemma_recorded2_empty(*st);
            }
        },
        ModuleItem::ExportDecl(d) => {
            match d {
                Decl::Fun(name, func) => {
                    let ghost s0 = *st;
                    if st.should_remove_identifier(name) {
                        st.add_ref(name.clone(), true);
                        let ghost s1 = *st;
                        analyze_func(func, true, st);
                        proof {
                            lemma_recorded_trans(
                                s0,
                                s1,
                                *st,
                                Set::empty().insert(name@),
                                func_ids(*func, true),
                                true,
                            );
                            lemma_recorded_to_recorded2(
                                s0,
                                *st,
                                Set::empty().insert(name@) + func_ids(*func, true),
                                true,
                            );
                        }
                    } else {
                        analyze_func(func, false, st);
                        proof {
                            lemma_recorded_to_recorded2(s0, *st, func_ids(*func, false), false);
                        }
                    }
                },
                Decl::Var(decls) => {
                    let ghost s0 = *st;
                    proof {
                        lemma_recorded2_empty(s0);
                    }
                    let mut i: usize = 0;
                    while i < decls.len()
                        invariant
                            0 <= i <= decls@.len(),
                            recorded2(
                                s0,
                                *st,
                                exp_declarators_other_ids(*decls, i as int, tv),
                                exp_declarators_data_ids(*decls, i as int, tv),
                            ),
                            st.targets() == tv,
                        decreases decls@.len() - i,
                    {
                        let ghost s1 = *st;
                        analyze_export_declarator(&decls[i], st);
                        proof {
                            lemma_recorded2_trans(
                                s0,
                                s1,
                                *st,
                                exp_declarators_other_ids(*decls, i as int, tv),
                                exp_declarators_data_ids(*decls, i as int, tv),
                                exp_declarator_other_ids(decls@[i as int], tv),
                                exp_declarator_data_ids(decls@[i as int], tv),
                            );
                        }
                        i = i + 1;
                    }
                },
            }
        },
        ModuleItem::ExportNamed(specs) => {
            let ghost s0 = *st;
            proof {
                lemma_recorded_empty(s0, false);
            }
            let mut i: usize = 0;
            while i < specs.len()
                invariant
                    0 <= i <= specs@.len(),
                    recorded(s0, *st, export_specs_other_ids(*specs, i as int, tv), false),
                    st.targets() == tv,
                decreases specs@.len() - i,
            {
                let ghost s1 = *st;
                match &specs[i] {
                    ExportSpecifier::Named(orig, exported) => {
                        let name: &String = match exported {
                            Some(alias) => alias,
                            None => &orig.sym,
                        };
                        if !st.is_removal_target(name) {
                            st.add_ref(orig.clone(), false);
                        } else {
                            proof {
                                lemma_recorded_empty(*st, false);
                            }
                        }
                    },
                    _ => {
                        proof {
                            lemma_recorded_empty(*st, false);
                        }
                    },
                }
                proof {
                    lemma_recorded_trans(
                        s0,
                        s1,
                        *st,
                        export_specs_other_ids(*specs, i as int, tv),
                        export_spec_other_ids(specs@[i as int], tv),
                        false,
                    );
                }
                i = i + 1;
            }
            proof {
                lemma_recorded_to_recorded2(
                    s0,
                    *st,
                    export_specs_other_ids(*specs, specs@.len() as int, tv),
                    false,
                );
            }
        },
        ModuleItem::ExportDefaultDecl(dd) => {
            match dd {
                DefaultDecl::Fun(name, func) => {
                    let in_data = st.should_remove_default();
                    let ghost s0 = *st;
                    match name {
                        Some(id) => {
                            st.add_ref(id.clone(), in_data);
                        },
                        None => {
                            proof {
                                lemma_recorded_empty(*st, in_data);
                            }
                        },
                    }
                    let ghost s1 = *st;
                    analyze_func(func, in_data, st);
                    proof {
                        lemma_recorded_trans(
                            s0,
                            s1,
                            *st,
                            opt_name_ids(*name),
                            func_ids(*func, in_data),
                            in_data,
                        );
                        lemma_recorded_to_recorded2(
                            s0,
                            *st,
                            opt_name_ids(*name) + func_ids(*func, in_data),
                            in_data,
                        );
                    }
                },
            }
        },
        ModuleItem::ExportDefaultExpr(e) => {
            let in_data = st.should_remove_default();
            let ghost s0 = *st;
            analyze_expr(e, in_data, st);
            proof {
                lemma_recorded_to_recorded2(s0, *st, expr_ids(*e, in_data), in_data);
            }
        },
        ModuleItem::Stmt(s) => {
            let ghost s0 = *st;
            analyze_stmt(s, false, st);
            proof {
                lemma_recorded_to_recorded2(s0, *st, stmt_ids(*s, false), false);
            }
        },
    }
}

/// One full analyzer pass: traverses the whole module without altering it
/// and records every reference into the reference sets.
pub fn analyze_module(m: &Module, st: &mut State)
    ensures
        recorded2(
            *old(st),
            *final(st),
            module_other_ids(*m, old(st).targets()),
            module_data_ids(*m, old(st).targets()),
        ),
{
    let ghost tv = st.targets();
    let ghost s0 = *st;
    proof {
        lemma_recorded2_empty(s0);
    }
    let mut i: usize = 0;
    while i < m.items.len()
        invariant
            0 <= i <= m.items@.len(),
            recorded2(
                s0,
                *st,
                items_other_ids(m.items, i as int, tv),
                items_data_ids(m.items, i as int, tv),
            ),
            st.targets() == tv,
        decreases m.items@.len() - i,
    {
        let ghost s1 = *st;
        analyze_item(&m.items[i], st);
        proof {
            lemma_recorded2_trans(
                s0,
                s1,
                *st,
                items_other_ids(m.items, i as int, tv),
                items_data_ids(m.items, i as int, tv),
                item_other_ids(m.items@[i as int], tv),
                item_data_ids(m.items@[i as int], tv),
            );
        }
        i = i + 1;
    }
}

} // verus!
