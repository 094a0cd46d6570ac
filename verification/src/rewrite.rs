//! The pruning rewriter: a mutating traversal that deletes or replaces
//! nodes using the analyzer's classification, and seeds newly-orphaned
//! sub-trees as removal candidates for the next pass.
//!
//! An identity is removable when the persistent set holds it and the
//! transient set does not: the transient set always wins. Each rule below
//! carries its contract: import and export specifiers are filtered exactly;
//! targeted exports become no-op placeholders after their bodies are fed to
//! the candidate marker; a targeted default export is replaced by a
//! canonical empty function, never deleted; patterns shed removable
//! bindings and collapse to the `Invalid` placeholder when nothing is left.
//! Every rule preserves bindings of identities the transient set holds,
//! only ever grows the persistent set, and never lowers the run-again flag.

use vstd::prelude::*;
use crate::ids::AbstractId;
use crate::ast::{
    Decl, DefaultDecl, Expr, ExportSpecifier, Func, ImportSpecifier, Module, ModuleItem,
    ObjPatProp, Pat, Stmt, VarDeclarator,
};
use crate::analyze::{analyze_func, analyze_opt_expr};
use crate::refs::{exported_name, func_ids, module_data_ids, module_other_ids, opt_expr_ids};
use crate::model::{
    default_decl_shape, default_expr_shape, drop_invalid_elems, item_shape, items_shape,
    lemma_items_shape_prefix, rw_exp_decl_model, rw_item_model, rw_items_model, rw_stmt_model,
    stmt_shape, ItemShape, StmtShape,
    lemma_declarators_shape_len, lemma_declarators_shape_prefix,
    lemma_opt_pats_shape_len, lemma_opt_pats_shape_prefix, lemma_pat_props_shape_len,
    lemma_pat_props_shape_prefix, declarator_shape, declarators_shape, opt_pat_shape,
    opt_pats_shape, pat_prop_shape, pat_props_shape, pat_shape, rw_declarator_model,
    rw_declarators_model, rw_opt_pat_model, rw_opt_pats_model, rw_pat_model, rw_pat_prop_model,
    rw_pat_props_model, DeclaratorShape, PatPropShape, PatShape,
};
use crate::state::{is_target, State, default_name};

verus! {

broadcast use vstd::std_specs::vec::axiom_vec_index_decreases;

// ---------------------------------------------------------------------------
// Bound identities of patterns, declarations and module items; the contracts
// below promise that bindings the transient set references are never lost.
// ---------------------------------------------------------------------------

/// Whether the pattern binds the identity.
pub open spec fn pat_binds(p: Pat, a: AbstractId) -> bool
    decreases p, 0int,
{
    match p {
        Pat::Ident(id) => id@ == a,
        Pat::Array(elems) => opt_pats_bind(elems, elems@.len() as int, a),
        Pat::Object(props) => pat_props_bind(props, props@.len() as int, a),
        Pat::Rest(inner) => pat_binds(*inner, a),
        Pat::Invalid => false,
    }
}

/// Whether one array-pattern element binds the identity.
pub open spec fn opt_pat_binds(op: Option<Pat>, a: AbstractId) -> bool
    decreases op, 1int,
{
    match op {
        Some(p) => pat_binds(p, a),
        None => false,
    }
}

/// Whether one of the first `n` array-pattern elements binds the identity.
pub open spec fn opt_pats_bind(v: Vec<Option<Pat>>, n: int, a: AbstractId) -> bool
    decreases v, n,
{
    if n <= 0 || n > v@.len() {
        false
    } else {
        opt_pats_bind(v, n - 1, a) || opt_pat_binds(v@[n - 1], a)
    }
}

/// Whether one object-pattern sub-pattern binds the identity.
pub open spec fn pat_prop_binds(p: ObjPatProp, a: AbstractId) -> bool
    decreases p, 1int,
{
    match p {
        ObjPatProp::KeyValue(sub) => pat_binds(*sub, a),
        ObjPatProp::Assign(key, _) => key@ == a,
        ObjPatProp::Rest(sub) => pat_binds(*sub, a),
    }
}

/// Whether one of the first `n` object-pattern sub-patterns binds the
/// identity.
pub open spec fn pat_props_bind(v: Vec<ObjPatProp>, n: int, a: AbstractId) -> bool
    decreases v, n,
{
    if n <= 0 || n > v@.len() {
        false
    } else {
        pat_props_bind(v, n - 1, a) || pat_prop_binds(v@[n - 1], a)
    }
}

/// Whether a binding for the identity survives in the sequence of
/// rewritten array-pattern elements.
pub open spec fn opt_pats_seq_bind(s: Seq<Option<Pat>>, a: AbstractId) -> bool {
    exists|i: int| 0 <= i < s.len() && opt_pat_binds(#[trigger] s[i], a)
}

/// Whether a binding for the identity survives in the sequence of
/// rewritten object-pattern sub-patterns.
pub open spec fn pat_props_seq_bind(s: Seq<ObjPatProp>, a: AbstractId) -> bool {
    exists|i: int| 0 <= i < s.len() && pat_prop_binds(#[trigger] s[i], a)
}

/// Whether no placeholder is left anywhere inside a pattern: container
/// cleanup has dropped every placeholder element, value and rest target.
/// The pattern itself may still be the placeholder its parent filters out.
pub open spec fn pat_clean(p: Pat) -> bool
    decreases p, 0int,
{
    match p {
        Pat::Ident(_) => true,
        Pat::Array(elems) => opt_pats_clean(elems, elems@.len() as int),
        Pat::Object(props) => pat_props_clean(props, props@.len() as int),
        Pat::Rest(inner) => !(*inner matches Pat::Invalid) && pat_clean(*inner),
        Pat::Invalid => true,
    }
}

/// Whether one array-pattern element holds no placeholder.
pub open spec fn opt_pat_clean(op: Option<Pat>) -> bool
    decreases op, 1int,
{
    match op {
        Some(p) => !(p matches Pat::Invalid) && pat_clean(p),
        None => true,
    }
}

/// Whether the first `n` array-pattern elements hold no placeholder.
pub open spec fn opt_pats_clean(v: Vec<Option<Pat>>, n: int) -> bool
    decreases v, n,
{
    if n <= 0 || n > v@.len() {
        true
    } else {
        opt_pats_clean(v, n - 1) && opt_pat_clean(v@[n - 1])
    }
}

/// Whether one object-pattern sub-pattern holds no placeholder.
pub open spec fn pat_prop_clean(p: ObjPatProp) -> bool
    decreases p, 1int,
{
    match p {
        ObjPatProp::KeyValue(sub) => !(*sub matches Pat::Invalid) && pat_clean(*sub),
        ObjPatProp::Assign(_, _) => true,
        ObjPatProp::Rest(sub) => !(*sub matches Pat::Invalid) && pat_clean(*sub),
    }
}

/// Whether the first `n` object-pattern sub-patterns hold no placeholder.
pub open spec fn pat_props_clean(v: Vec<ObjPatProp>, n: int) -> bool
    decreases v, n,
{
    if n <= 0 || n > v@.len() {
        true
    } else {
        pat_props_clean(v, n - 1) && pat_prop_clean(v@[n - 1])
    }
}

/// A prefix is clean exactly when each of its elements is.
pub proof fn lemma_opt_pats_clean_index(v: Vec<Option<Pat>>, n: int)
    requires
        0 <= n <= v@.len(),
    ensures
        opt_pats_clean(v, n) <==> forall|i: int| 0 <= i < n ==> opt_pat_clean(#[trigger] v@[i]),
    decreases n,
{
    if n > 0 {
        lemma_opt_pats_clean_index(v, n - 1);
    }
}

/// A prefix is clean exactly when each of its sub-patterns is.
pub proof fn lemma_pat_props_clean_index(v: Vec<ObjPatProp>, n: int)
    requires
        0 <= n <= v@.len(),
    ensures
        pat_props_clean(v, n) <==> forall|i: int| 0 <= i < n ==> pat_prop_clean(#[trigger] v@[i]),
    decreases n,
{
    if n > 0 {
        lemma_pat_props_clean_index(v, n - 1);
    }
}

// ---------------------------------------------------------------------------
// Import and export specifier filtering, stated exactly.
// ---------------------------------------------------------------------------

/// The local identity an import specifier binds.
pub open spec fn import_local(s: ImportSpecifier) -> AbstractId {
    match s {
        ImportSpecifier::Named(id) => id@,
        ImportSpecifier::Default(id) => id@,
        ImportSpecifier::Namespace(id) => id@,
    }
}

/// The import specifiers among the first `n` whose local binding is not
/// removable.
pub open spec fn kept_imports(
    v: Vec<ImportSpecifier>,
    n: int,
    other: Set<AbstractId>,
    data: Set<AbstractId>,
) -> Seq<ImportSpecifier>
    decreases n,
{
    if n <= 0 || n > v@.len() {
        Seq::empty()
    } else {
        let rest = kept_imports(v, n - 1, other, data);
        if data.contains(import_local(v@[n - 1])) && !other.contains(import_local(v@[n - 1])) {
            rest
        } else {
            rest.push(v@[n - 1])
        }
    }
}

/// The named-export specifiers among the first `n` that do not export
/// under a targeted name.
pub open spec fn kept_exports(
    v: Vec<ExportSpecifier>,
    n: int,
    targets: Seq<String>,
) -> Seq<ExportSpecifier>
    decreases n,
{
    if n <= 0 || n > v@.len() {
        Seq::empty()
    } else {
        let rest = kept_exports(v, n - 1, targets);
        if is_target(targets, exported_name(v@[n - 1])) {
            rest
        } else {
            rest.push(v@[n - 1])
        }
    }
}

/// The original identities of dropped named-export specifiers among the
/// first `n`: each is seeded into the persistent set when its specifier is
/// dropped, so its declaration is reconsidered on the next pass.
pub open spec fn export_seed_ids(
    v: Vec<ExportSpecifier>,
    n: int,
    targets: Seq<String>,
) -> Set<AbstractId>
    decreases n,
{
    if n <= 0 || n > v@.len() {
        Set::empty()
    } else {
        let rest = export_seed_ids(v, n - 1, targets);
        match v@[n - 1] {
            ExportSpecifier::Named(orig, _) => if is_target(targets, exported_name(v@[n - 1])) {
                rest.insert(orig@)
            } else {
                rest
            },
            _ => rest,
        }
    }
}

// ---------------------------------------------------------------------------
// Default-export shape, for the preservation contract.
// ---------------------------------------------------------------------------

/// Whether a module item is a default-export slot.
pub open spec fn is_default_item(it: ModuleItem) -> bool {
    match it {
        ModuleItem::ExportDefaultDecl(_) => true,
        ModuleItem::ExportDefaultExpr(_) => true,
        _ => false,
    }
}

/// How many default-export slots a list of items holds.
pub open spec fn count_defaults(s: Seq<ModuleItem>) -> nat
    decreases s.len(),
{
    if s.len() == 0 {
        0
    } else {
        count_defaults(s.drop_last()) + if is_default_item(s.last()) {
            1nat
        } else {
            0nat
        }
    }
}

/// Whether a default-export slot holds the canonical replacement: an
/// anonymous function with no parameters and an empty body.
pub open spec fn canonical_default(it: ModuleItem) -> bool {
    match it {
        ModuleItem::ExportDefaultDecl(DefaultDecl::Fun(name, f)) => name is None
            && f.params@ == Seq::<Pat>::empty() && f.body@ == Seq::<Stmt>::empty(),
        ModuleItem::ExportDefaultExpr(e) => match e {
            Expr::Fun(name, f) => name is None && f.params@ == Seq::<Pat>::empty() && f.body@
                == Seq::<Stmt>::empty(),
            _ => false,
        },
        _ => false,
    }
}

/// Whether every default-export slot in the list is canonical.
pub open spec fn all_defaults_canonical(s: Seq<ModuleItem>) -> bool {
    forall|i: int| 0 <= i < s.len() && is_default_item(#[trigger] s[i]) ==> canonical_default(s[i])
}

/// Whether one variable declarator binds the identity (through its name
/// pattern).
pub open spec fn declarator_binds(d: VarDeclarator, a: AbstractId) -> bool
    decreases d, 1int,
{
    pat_binds(d.name, a)
}

/// Whether one of the first `n` declarators binds the identity.
pub open spec fn declarators_bind(v: Vec<VarDeclarator>, n: int, a: AbstractId) -> bool
    decreases v, n,
{
    if n <= 0 || n > v@.len() {
        false
    } else {
        declarators_bind(v, n - 1, a) || declarator_binds(v@[n - 1], a)
    }
}

/// Whether a declaration binds the identity at module scope.
pub open spec fn decl_binds(d: Decl, a: AbstractId) -> bool
    decreases d, 2int,
{
    match d {
        Decl::Fun(name, _) => name@ == a,
        Decl::Var(decls) => declarators_bind(decls, decls@.len() as int, a),
    }
}

/// Whether a statement binds the identity at module scope.
pub open spec fn stmt_binds(s: Stmt, a: AbstractId) -> bool
    decreases s, 3int,
{
    match s {
        Stmt::Decl(d) => decl_binds(d, a),
        _ => false,
    }
}

/// Whether one of the first `n` import specifiers binds the identity.
pub open spec fn import_specs_bind(v: Vec<ImportSpecifier>, n: int, a: AbstractId) -> bool
    decreases n,
{
    if n <= 0 || n > v@.len() {
        false
    } else {
        import_specs_bind(v, n - 1, a) || import_local(v@[n - 1]) == a
    }
}

/// A prefix binds the identity exactly when one of its specifiers does.
pub proof fn lemma_imports_bind_index(v: Vec<ImportSpecifier>, n: int, a: AbstractId)
    requires
        0 <= n <= v@.len(),
    ensures
        import_specs_bind(v, n, a) <==> exists|i: int|
            0 <= i < n && import_local(#[trigger] v@[i]) == a,
    decreases n,
{
    if n > 0 {
        lemma_imports_bind_index(v, n - 1, a);
    }
}

/// Whether a module item binds the identity at module scope: through an
/// import specifier's local binding, an exported or plain declaration.
pub open spec fn item_binds(it: ModuleItem, a: AbstractId) -> bool
    decreases it, 4int,
{
    match it {
        ModuleItem::Import(specs) => import_specs_bind(specs, specs@.len() as int, a),
        ModuleItem::ExportDecl(d) => decl_binds(d, a),
        ModuleItem::Stmt(s) => stmt_binds(s, a),
        _ => false,
    }
}

/// Whether one of the first `n` module items binds the identity.
pub open spec fn items_bind(v: Vec<ModuleItem>, n: int, a: AbstractId) -> bool
    decreases v, n,
{
    if n <= 0 || n > v@.len() {
        false
    } else {
        items_bind(v, n - 1, a) || item_binds(v@[n - 1], a)
    }
}

/// Whether the module declares the identity at module scope.
pub open spec fn module_binds(m: Module, a: AbstractId) -> bool {
    items_bind(m.items, m.items@.len() as int, a)
}

// ---------------------------------------------------------------------------
// Sizes: the measure for the pattern rewriter, whose elements are moved out
// of their containers while it works.
// ---------------------------------------------------------------------------

/// The size of a pattern.
pub open spec fn pat_size(p: Pat) -> nat
    decreases p, 0int,
{
    match p {
        Pat::Ident(_) => 1,
        Pat::Array(elems) => 1 + opt_pats_size(elems, elems@.len() as int),
        Pat::Object(props) => 1 + pat_props_size(props, props@.len() as int),
        Pat::Rest(inner) => 1 + pat_size(*inner),
        Pat::Invalid => 1,
    }
}

/// The size of one array-pattern element.
pub open spec fn opt_pat_size(op: Option<Pat>) -> nat
    decreases op, 1int,
{
    match op {
        Some(p) => pat_size(p),
        None => 0,
    }
}

/// The size of the first `n` array-pattern elements.
pub open spec fn opt_pats_size(v: Vec<Option<Pat>>, n: int) -> nat
    decreases v, n,
{
    if n <= 0 || n > v@.len() {
        0
    } else {
        opt_pats_size(v, n - 1) + opt_pat_size(v@[n - 1])
    }
}

/// The size of one object-pattern sub-pattern.
pub open spec fn pat_prop_size(p: ObjPatProp) -> nat
    decreases p, 1int,
{
    match p {
        ObjPatProp::KeyValue(sub) => pat_size(*sub),
        ObjPatProp::Assign(_, _) => 0,
        ObjPatProp::Rest(sub) => pat_size(*sub),
    }
}

/// The size of the first `n` object-pattern sub-patterns.
pub open spec fn pat_props_size(v: Vec<ObjPatProp>, n: int) -> nat
    decreases v, n,
{
    if n <= 0 || n > v@.len() {
        0
    } else {
        pat_props_size(v, n - 1) + pat_prop_size(v@[n - 1])
    }
}

/// An element's size is bounded by the size of any prefix that holds it.
pub proof fn lemma_opt_pats_size_le(v: Vec<Option<Pat>>, i: int, n: int)
    requires
        0 <= i < n <= v@.len(),
    ensures
        opt_pat_size(v@[i]) <= opt_pats_size(v, n),
    decreases n,
{
    if i < n - 1 {
        lemma_opt_pats_size_le(v, i, n - 1);
    }
}

/// An element's size is bounded by the size of any prefix that holds it.
pub proof fn lemma_pat_props_size_le(v: Vec<ObjPatProp>, i: int, n: int)
    requires
        0 <= i < n <= v@.len(),
    ensures
        pat_prop_size(v@[i]) <= pat_props_size(v, n),
    decreases n,
{
    if i < n - 1 {
        lemma_pat_props_size_le(v, i, n - 1);
    }
}

/// A prefix binds the identity exactly when one of its elements does.
pub proof fn lemma_opt_pats_bind_index(v: Vec<Option<Pat>>, n: int, a: AbstractId)
    requires
        0 <= n <= v@.len(),
    ensures
        opt_pats_bind(v, n, a) <==> exists|i: int|
            0 <= i < n && opt_pat_binds(#[trigger] v@[i], a),
    decreases n,
{
    if n > 0 {
        lemma_opt_pats_bind_index(v, n - 1, a);
    }
}

/// A prefix binds the identity exactly when one of its elements does.
pub proof fn lemma_pat_props_bind_index(v: Vec<ObjPatProp>, n: int, a: AbstractId)
    requires
        0 <= n <= v@.len(),
    ensures
        pat_props_bind(v, n, a) <==> exists|i: int|
            0 <= i < n && pat_prop_binds(#[trigger] v@[i], a),
    decreases n,
{
    if n > 0 {
        lemma_pat_props_bind_index(v, n - 1, a);
    }
}

/// A prefix binds the identity exactly when one of its declarators does.
pub proof fn lemma_declarators_bind_index(v: Vec<VarDeclarator>, n: int, a: AbstractId)
    requires
        0 <= n <= v@.len(),
    ensures
        declarators_bind(v, n, a) <==> exists|i: int|
            0 <= i < n && declarator_binds(#[trigger] v@[i], a),
    decreases n,
{
    if n > 0 {
        lemma_declarators_bind_index(v, n - 1, a);
    }
}

/// A prefix binds the identity exactly when one of its items does.
pub proof fn lemma_items_bind_index(v: Vec<ModuleItem>, n: int, a: AbstractId)
    requires
        0 <= n <= v@.len(),
    ensures
        items_bind(v, n, a) <==> exists|i: int|
            0 <= i < n && item_binds(#[trigger] v@[i], a),
    decreases n,
{
    if n > 0 {
        lemma_items_bind_index(v, n - 1, a);
    }
}

/// A kept import specifier for an identity the transient set holds survives
/// the filtering.
pub proof fn lemma_kept_imports_bind(
    v: Vec<ImportSpecifier>,
    n: int,
    other: Set<AbstractId>,
    data: Set<AbstractId>,
    a: AbstractId,
)
    requires
        0 <= n <= v@.len(),
        other.contains(a),
        exists|i: int| 0 <= i < n && import_local(#[trigger] v@[i]) == a,
    ensures
        exists|i: int|
            0 <= i < kept_imports(v, n, other, data).len() && import_local(
                #[trigger] kept_imports(v, n, other, data)[i],
            ) == a,
    decreases n,
{
    let i = choose|i: int| 0 <= i < n && import_local(#[trigger] v@[i]) == a;
    let kept = kept_imports(v, n, other, data);
    if i == n - 1 {
        assert(!(data.contains(import_local(v@[n - 1])) && !other.contains(
            import_local(v@[n - 1]),
        )));
        assert(kept[kept.len() - 1] == v@[n - 1]);
    } else {
        lemma_kept_imports_bind(v, n - 1, other, data, a);
        let rest = kept_imports(v, n - 1, other, data);
        let j = choose|j: int| 0 <= j < rest.len() && import_local(#[trigger] rest[j]) == a;
        assert(kept[j] == rest[j]);
    }
}

/// The frame every rewriting step preserves: the transient set, the guard
/// and the targets are read, never written; the persistent set only grows;
/// the run-again flag is never lowered.
pub open spec fn rw_frame(pre: State, post: State) -> bool {
    &&& post.other_refs@ == pre.other_refs@
    &&& post.cur_declaring@ == pre.cur_declaring@
    &&& post.remove_exports == pre.remove_exports
    &&& pre.data_refs@.subset_of(post.data_refs@)
    &&& (pre.should_run_again ==> post.should_run_again)
}

// ---------------------------------------------------------------------------
// The executable rewriter.
// ---------------------------------------------------------------------------

/// The canonical zero-argument, empty-body anonymous function that replaces
/// a targeted default export.
pub fn create_empty_fn() -> (r: Func)
    ensures
        r.params@ == Seq::<Pat>::empty(),
        r.body@ == Seq::<Stmt>::empty(),
{
    Func { params: Vec::new(), body: Vec::new() }
}

/// Drops every import specifier whose local binding is removable. The
/// result is exactly the kept specifiers, in order; each drop raises the
/// run-again flag; the reference sets are untouched.
pub fn rewrite_import(specs: Vec<ImportSpecifier>, st: &mut State) -> (r: Vec<ImportSpecifier>)
    ensures
        r@ == kept_imports(specs, specs@.len() as int, old(st).other_refs@, old(st).data_refs@),
        r@.len() <= specs@.len(),
        final(st).other_refs == old(st).other_refs,
        final(st).data_refs == old(st).data_refs,
        final(st).cur_declaring == old(st).cur_declaring,
        final(st).remove_exports == old(st).remove_exports,
        final(st).should_run_again == (old(st).should_run_again || r@.len() < specs@.len()),
{
    let ghost orig = specs;
    let ghost other0 = st.other_refs@;
    let ghost data0 = st.data_refs@;
    let ghost flag0 = st.should_run_again;
    let mut rest = specs;
    let mut out: Vec<ImportSpecifier> = Vec::new();
    let ghost mut j: int = 0;
    while rest.len() > 0
        invariant
            0 <= j,
            j + rest@.len() == orig@.len(),
            rest@ == orig@.subrange(j, orig@.len() as int),
            out@ == kept_imports(orig, j, other0, data0),
            out@.len() <= j,
            st.other_refs == old(st).other_refs,
            st.other_refs@ == other0,
            st.data_refs == old(st).data_refs,
            st.data_refs@ == data0,
            st.cur_declaring == old(st).cur_declaring,
            st.remove_exports == old(st).remove_exports,
            st.should_run_again == (flag0 || out@.len() < j),
        decreases rest@.len(),
    {
        let s = rest.remove(0);
        proof {
            assert(s == orig@[j]);
            assert(rest@ =~= orig@.subrange(j + 1, orig@.len() as int));
        }
        let keep = match &s {
            ImportSpecifier::Named(local) => !st.should_remove(local),
            ImportSpecifier::Default(local) => !st.should_remove(local),
            ImportSpecifier::Namespace(local) => !st.should_remove(local),
        };
        if keep {
            out.push(s);
        } else {
            st.should_run_again = true;
        }
        proof {
            j = j + 1;
        }
    }
    out
}

/// Drops every named-export specifier that exports under a targeted name.
/// The result is exactly the kept specifiers; each dropped specifier's
/// original identity is seeded into the persistent set and each drop
/// raises the run-again flag.
pub fn rewrite_export_specs(specs: Vec<ExportSpecifier>, st: &mut State) -> (r: Vec<
    ExportSpecifier,
>)
    ensures
        r@ == kept_exports(specs, specs@.len() as int, old(st).targets()),
        r@.len() <= specs@.len(),
        final(st).data_refs@ == old(st).data_refs@ + export_seed_ids(
            specs,
            specs@.len() as int,
            old(st).targets(),
        ),
        final(st).other_refs == old(st).other_refs,
        final(st).cur_declaring == old(st).cur_declaring,
        final(st).remove_exports == old(st).remove_exports,
        final(st).should_run_again == (old(st).should_run_again || r@.len() < specs@.len()),
{
    let ghost orig = specs;
    let ghost tv = st.targets();
    let ghost data0 = st.data_refs@;
    let ghost flag0 = st.should_run_again;
    let mut rest = specs;
    let mut out: Vec<ExportSpecifier> = Vec::new();
    let ghost mut j: int = 0;
    proof {
        assert(data0 + export_seed_ids(orig, 0int, tv) =~= data0);
    }
    while rest.len() > 0
        invariant
            0 <= j,
            j + rest@.len() == orig@.len(),
            rest@ == orig@.subrange(j, orig@.len() as int),
            out@ == kept_exports(orig, j, tv),
            out@.len() <= j,
            st.data_refs@ == data0 + export_seed_ids(orig, j, tv),
            st.other_refs == old(st).other_refs,
            st.cur_declaring == old(st).cur_declaring,
            st.remove_exports == old(st).remove_exports,
            st.targets() == tv,
            st.should_run_again == (flag0 || out@.len() < j),
        decreases rest@.len(),
    {
        let s = rest.remove(0);
        proof {
            assert(s == orig@[j]);
            assert(rest@ =~= orig@.subrange(j + 1, orig@.len() as int));
        }
        let doomed = match &s {
            ExportSpecifier::Named(orig_id, exported) => {
                let name: &String = match exported {
                    Some(alias) => alias,
                    None => &orig_id.sym,
                };
                st.is_removal_target(name)
            },
            ExportSpecifier::Namespace(name) => st.is_removal_target(name),
            ExportSpecifier::Default(name) => st.is_removal_target(name),
        };
        if doomed {
            match s {
                ExportSpecifier::Named(orig_id, _) => {
                    st.data_refs.insert(orig_id);
                },
                _ => {},
            }
            st.should_run_again = true;
            proof {
                assert(st.data_refs@ =~= data0 + export_seed_ids(orig, j + 1, tv));
            }
        } else {
            out.push(s);
            proof {
                assert(st.data_refs@ =~= data0 + export_seed_ids(orig, j + 1, tv));
            }
        }
        proof {
            j = j + 1;
        }
    }
    out
}

/// Rewrites one pattern on the left-hand side of a declarator. A removable
/// identifier becomes the `Invalid` placeholder; array and object patterns
/// shed placeholder elements, removable shorthand keys (whose default
/// values are fed to the candidate marker first) and placeholder rest
/// targets, and collapse to the placeholder when they end empty. Bindings
/// of identities held by the transient set always survive.
#[verifier::loop_isolation(false)]
pub fn rewrite_pat(p: Pat, st: &mut State) -> (r: Pat)
    ensures
        rw_frame(*old(st), *final(st)),
        forall|a: AbstractId|
            old(st).other_refs@.contains(a) && pat_binds(p, a) ==> pat_binds(r, a),
        forall|a: AbstractId| pat_binds(r, a) ==> pat_binds(p, a) && !old(st).removable(a),
        pat_clean(r),
        ({
            let (gv, d2, f2) = rw_pat_model(p, old(st).other_refs@, old(st).data_refs@);
            pat_shape(r) == gv && final(st).data_refs@ == d2 && final(st).should_run_again == (old(
                st,
            ).should_run_again || f2)
        }),
        (p matches Pat::Ident(id) && old(st).removable(id@)) ==> (r == Pat::Invalid
            && final(st).should_run_again),
        (p matches Pat::Ident(id) && !old(st).removable(id@)) ==> r == p,
        (p matches Pat::Invalid) ==> r == p,
    decreases pat_size(p),
{
    let ghost p0 = p;
    match p {
        Pat::Ident(id) => {
            if st.should_remove(&id) {
                st.should_run_again = true;
                proof {
                    assert forall|a: AbstractId|
                        old(st).other_refs@.contains(a) && pat_binds(p0, a) implies pat_binds(
                        Pat::Invalid,
                        a,
                    ) by {
                        assert(a == id@);
                    }
                }
                Pat::Invalid
            } else {
                let r = Pat::Ident(id);
                proof {
                    assert(r == p0);
                }
                r
            }
        },
        Pat::Array(elems) => {
            if elems.len() == 0 {
                proof {
                    assert forall|a: AbstractId| !pat_binds(p0, a) by {
                        assert(!opt_pats_bind(elems, 0int, a));
                    }
                    assert(opt_pats_clean(elems, 0int));
                    assert(opt_pats_shape(elems, 0int) =~= Seq::<Option<PatShape>>::empty());
                }
                return Pat::Array(elems);
            }
            let ghost orig = elems;
            let ghost pre = *st;
            let mut rest = elems;
            let mut out: Vec<Option<Pat>> = Vec::new();
            let ghost mut j: int = 0;
            while rest.len() > 0
                invariant
                    0 <= j,
                    j + rest@.len() == orig@.len(),
                    rest@ == orig@.subrange(j, orig@.len() as int),
                    rw_frame(pre, *st),
                    pat_size(p0) == 1 + opt_pats_size(orig, orig@.len() as int),
                    forall|a: AbstractId|
                        pre.other_refs@.contains(a) && opt_pats_bind(orig, j, a)
                            ==> opt_pats_seq_bind(out@, a),
                    forall|a: AbstractId| #![trigger opt_pats_seq_bind(out@, a)]
                        opt_pats_seq_bind(out@, a) ==> opt_pats_bind(orig, j, a)
                            && !pre.removable(a),
                    forall|i: int| 0 <= i < out@.len() ==> opt_pat_clean(#[trigger] out@[i]),
                    ({
                        let (es, dm, fm) = rw_opt_pats_model(
                            orig,
                            j,
                            pre.other_refs@,
                            pre.data_refs@,
                        );
                        opt_pats_shape(out, out@.len() as int) == drop_invalid_elems(es)
                            && st.data_refs@ == dm && st.should_run_again == (
                        pre.should_run_again || fm)
                    }),
                decreases rest@.len(),
            {
                let op = rest.remove(0);
                proof {
                    assert(op == orig@[j]);
                    assert(rest@ =~= orig@.subrange(j + 1, orig@.len() as int));
                    lemma_opt_pats_size_le(orig, j, orig@.len() as int);
                }
                let ghost out_vec_old = out;
                let ghost out_old = out@;
                let ghost st_mid = *st;
                match op {
                    Some(sub) => {
                        let ghost sub0 = sub;
                        let sub2 = rewrite_pat(sub, st);
                        let ghost sub2g = sub2;
                        let keep = match &sub2 {
                            Pat::Invalid => false,
                            _ => true,
                        };
                        if keep {
                            out.push(Some(sub2));
                        }
                        proof {
                            assert forall|a: AbstractId|
                                pre.other_refs@.contains(a) && opt_pats_bind(orig, j + 1, a)
                                    implies opt_pats_seq_bind(out@, a) by {
                                if opt_pats_bind(orig, j, a) {
                                    let i = choose|i: int|
                                        0 <= i < out_old.len() && opt_pat_binds(
                                            #[trigger] out_old[i],
                                            a,
                                        );
                                    assert(out@[i] == out_old[i]);
                                } else {
                                    assert(opt_pat_binds(orig@[j], a));
                                    assert(pat_binds(sub0, a));
                                    assert(pat_binds(sub2g, a));
                                    assert(keep);
                                    assert(out@[out@.len() - 1] == Some(sub2g));
                                }
                            }
                            assert forall|a: AbstractId| #![trigger opt_pats_seq_bind(out@, a)]
                                opt_pats_seq_bind(out@, a) implies opt_pats_bind(orig, j + 1, a)
                                    && !pre.removable(a) by {
                                let i = choose|i: int|
                                    0 <= i < out@.len() && opt_pat_binds(#[trigger] out@[i], a);
                                if i < out_old.len() {
                                    assert(out@[i] == out_old[i]);
                                    assert(opt_pats_seq_bind(out_old, a));
                                    assert(opt_pats_bind(orig, j, a) && !pre.removable(a));
                                } else {
                                    assert(out@[i] == Some(sub2g));
                                    assert(pat_binds(sub2g, a));
                                    assert(pat_binds(sub0, a));
                                    assert(opt_pat_binds(orig@[j], a));
                                    assert(!st_mid.removable(a));
                                    if pre.data_refs@.contains(a) {
                                        assert(pre.data_refs@.subset_of(st_mid.data_refs@));
                                        assert(st_mid.data_refs@.contains(a));
                                        assert(st_mid.other_refs@.contains(a));
                                    }
                                    assert(!pre.removable(a));
                                }
                            }
                            let (es, dm, fm) = rw_opt_pats_model(
                                orig,
                                j,
                                pre.other_refs@,
                                pre.data_refs@,
                            );
                            let (sv, dn, fn2) = rw_pat_model(sub0, pre.other_refs@, dm);
                            assert(pat_shape(sub2g) == sv);
                            assert(rw_opt_pat_model(orig@[j], pre.other_refs@, dm) == (
                            Some(sv),
                            dn,
                            fn2,
                        ));
                            if keep {
                                assert(sv != PatShape::Invalid);
                                assert(out_vec_old@ == out_old);
                                assert(out@ == out_old.push(Some(sub2g)));
                                assert(out@.len() == out_old.len() + 1);
                                lemma_opt_pats_shape_prefix(
                                    out_vec_old,
                                    out,
                                    out_old.len() as int,
                                );
                                assert(opt_pats_shape(out, out_old.len() as int)
                                    == opt_pats_shape(out_vec_old, out_old.len() as int));
                                assert(out@[out_old.len() as int] == Some(sub2g));
                                assert(opt_pat_shape(Some(sub2g)) == Some(pat_shape(sub2g)));
                                assert(opt_pats_shape(out, out@.len() as int)
                                    == opt_pats_shape(out, out_old.len() as int).push(
                                    opt_pat_shape(out@[out_old.len() as int]),
                                ));
                                assert(opt_pats_shape(out, out@.len() as int)
                                    == opt_pats_shape(out_vec_old, out_old.len() as int).push(
                                    Some(pat_shape(sub2g)),
                                ));
                                assert(es.push(Some(sv)).drop_last() =~= es);
                                assert(drop_invalid_elems(es.push(Some(sv)))
                                    == drop_invalid_elems(es).push(Some(sv)));
                            } else {
                                assert(sub2g == Pat::Invalid);
                                assert(sv == PatShape::Invalid);
                                assert(es.push(Some(sv)).drop_last() =~= es);
                                assert(drop_invalid_elems(es.push(Some(sv)))
                                    == drop_invalid_elems(es));
                            }
                        }
                    },
                    None => {
                        out.push(None);
                        proof {
                            assert forall|a: AbstractId|
                                pre.other_refs@.contains(a) && opt_pats_bind(orig, j + 1, a)
                                    implies opt_pats_seq_bind(out@, a) by {
                                if opt_pats_bind(orig, j, a) {
                                    let i = choose|i: int|
                                        0 <= i < out_old.len() && opt_pat_binds(
                                            #[trigger] out_old[i],
                                            a,
                                        );
                                    assert(out@[i] == out_old[i]);
                                } else {
                                    assert(opt_pat_binds(orig@[j], a));
                                }
                            }
                            assert forall|a: AbstractId| #![trigger opt_pats_seq_bind(out@, a)]
                                opt_pats_seq_bind(out@, a) implies opt_pats_bind(orig, j + 1, a)
                                    && !pre.removable(a) by {
                                let i = choose|i: int|
                                    0 <= i < out@.len() && opt_pat_binds(#[trigger] out@[i], a);
                                if i < out_old.len() {
                                    assert(opt_pats_seq_bind(out_old, a));
                                } else {
                                    assert(out@[i] == None::<Pat>);
                                }
                            }
                            let (es, dm, fm) = rw_opt_pats_model(
                                orig,
                                j,
                                pre.other_refs@,
                                pre.data_refs@,
                            );
                            assert(rw_opt_pat_model(orig@[j], pre.other_refs@, dm) == (
                            None::<PatShape>,
                            dm,
                            false,
                        ));
                            assert(out_vec_old@ == out_old);
                            assert(out@ == out_old.push(None));
                            assert(out@.len() == out_old.len() + 1);
                            lemma_opt_pats_shape_prefix(out_vec_old, out, out_old.len() as int);
                            assert(opt_pats_shape(out, out_old.len() as int) == opt_pats_shape(
                                out_vec_old,
                                out_old.len() as int,
                            ));
                            assert(out@[out_old.len() as int] == None::<Pat>);
                            assert(opt_pats_shape(out, out@.len() as int) == opt_pats_shape(
                                out,
                                out_old.len() as int,
                            ).push(opt_pat_shape(out@[out_old.len() as int])));
                            assert(opt_pats_shape(out, out@.len() as int) == opt_pats_shape(
                                out_vec_old,
                                out_old.len() as int,
                            ).push(None));
                            assert(es.push(None).drop_last() =~= es);
                            assert(drop_invalid_elems(es.push(None)) == drop_invalid_elems(
                                es,
                            ).push(None));
                        }
                    },
                }
                proof {
                    j = j + 1;
                }
            }
            if out.len() == 0 {
                proof {
                    assert forall|a: AbstractId|
                        pre.other_refs@.contains(a) && pat_binds(p0, a) implies pat_binds(
                        Pat::Invalid,
                        a,
                    ) by {
                        assert(opt_pats_bind(orig, orig@.len() as int, a));
                        assert(opt_pats_seq_bind(out@, a));
                    }
                    assert(opt_pats_shape(out, 0int) =~= Seq::<Option<PatShape>>::empty());
                }
                Pat::Invalid
            } else {
                let ghost outg = out;
                let r = Pat::Array(out);
                proof {
                    assert forall|a: AbstractId|
                        pre.other_refs@.contains(a) && pat_binds(p0, a) implies pat_binds(r, a) by {
                        assert(opt_pats_bind(orig, orig@.len() as int, a));
                        assert(opt_pats_seq_bind(outg@, a));
                        lemma_opt_pats_bind_index(outg, outg@.len() as int, a);
                        assert(opt_pats_bind(outg, outg@.len() as int, a));
                    }
                    assert forall|a: AbstractId| pat_binds(r, a) implies pat_binds(p0, a)
                        && !pre.removable(a) by {
                        assert(opt_pats_bind(outg, outg@.len() as int, a));
                        lemma_opt_pats_bind_index(outg, outg@.len() as int, a);
                        assert(opt_pats_seq_bind(outg@, a));
                        assert(opt_pats_bind(orig, orig@.len() as int, a));
                    }
                    lemma_opt_pats_clean_index(outg, outg@.len() as int);
                    assert(pat_clean(r));
                    lemma_opt_pats_shape_len(outg, outg@.len() as int);
                    assert(pat_shape(r) == PatShape::Array(
                        opt_pats_shape(outg, outg@.len() as int),
                    ));
                }
                r
            }
        },
        Pat::Object(props) => {
            if props.len() == 0 {
                proof {
                    assert forall|a: AbstractId| !pat_binds(p0, a) by {
                        assert(!pat_props_bind(props, 0int, a));
                    }
                    assert(pat_props_clean(props, 0int));
                    assert(pat_props_shape(props, 0int) =~= Seq::<PatPropShape>::empty());
                }
                return Pat::Object(props);
            }
            let ghost orig = props;
            let ghost pre = *st;
            let mut rest = props;
            let mut out: Vec<ObjPatProp> = Vec::new();
            let ghost mut j: int = 0;
            while rest.len() > 0
                invariant
                    0 <= j,
                    j + rest@.len() == orig@.len(),
                    rest@ == orig@.subrange(j, orig@.len() as int),
                    rw_frame(pre, *st),
                    pat_size(p0) == 1 + pat_props_size(orig, orig@.len() as int),
                    forall|a: AbstractId|
                        pre.other_refs@.contains(a) && pat_props_bind(orig, j, a)
                            ==> pat_props_seq_bind(out@, a),
                    forall|a: AbstractId| #![trigger pat_props_seq_bind(out@, a)]
                        pat_props_seq_bind(out@, a) ==> pat_props_bind(orig, j, a)
                            && !pre.removable(a),
                    forall|i: int| 0 <= i < out@.len() ==> pat_prop_clean(#[trigger] out@[i]),
                    pat_props_shape(out, out@.len() as int) == rw_pat_props_model(
                        orig,
                        j,
                        pre.other_refs@,
                        pre.data_refs@,
                    ).0,
                    st.data_refs@ == rw_pat_props_model(orig, j, pre.other_refs@, pre.data_refs@).1,
                    st.should_run_again == (pre.should_run_again || rw_pat_props_model(
                        orig,
                        j,
                        pre.other_refs@,
                        pre.data_refs@,
                    ).2),
                decreases rest@.len(),
            {
                let pp = rest.remove(0);
                proof {
                    assert(pp == orig@[j]);
                    assert(rest@ =~= orig@.subrange(j + 1, orig@.len() as int));
                    lemma_pat_props_size_le(orig, j, orig@.len() as int);
                }
                let ghost out_vec_old = out;
                let ghost out_old = out@;
                let ghost pp0 = pp;
                let ghost st_mid = *st;
                match pp {
                    ObjPatProp::KeyValue(sub) => {
                        let ghost sub0 = *sub;
                        let sub2 = rewrite_pat(*sub, st);
                        let ghost sub2g = sub2;
                        let keep = match &sub2 {
                            Pat::Invalid => false,
                            _ => true,
                        };
                        if keep {
                            out.push(ObjPatProp::KeyValue(Box::new(sub2)));
                        }
                        proof {
                            assert forall|a: AbstractId|
                                pre.other_refs@.contains(a) && pat_props_bind(orig, j + 1, a)
                                    implies pat_props_seq_bind(out@, a) by {
                                if pat_props_bind(orig, j, a) {
                                    let i = choose|i: int|
                                        0 <= i < out_old.len() && pat_prop_binds(
                                            #[trigger] out_old[i],
                                            a,
                                        );
                                    assert(out@[i] == out_old[i]);
                                } else {
                                    assert(pat_prop_binds(orig@[j], a));
                                    assert(pat_binds(sub0, a));
                                    assert(pat_binds(sub2g, a));
                                    assert(keep);
                                    assert(pat_prop_binds(out@[out@.len() - 1], a));
                                }
                            }
                            assert forall|a: AbstractId| #![trigger pat_props_seq_bind(out@, a)]
                                pat_props_seq_bind(out@, a) implies pat_props_bind(orig, j + 1, a)
                                    && !pre.removable(a) by {
                                let i = choose|i: int|
                                    0 <= i < out@.len() && pat_prop_binds(#[trigger] out@[i], a);
                                if i < out_old.len() {
                                    assert(pat_props_seq_bind(out_old, a));
                                } else {
                                    assert(out@[i] == ObjPatProp::KeyValue(Box::new(sub2g)));
                                    assert(pat_binds(sub2g, a));
                                    assert(pat_binds(sub0, a));
                                    assert(pat_prop_binds(orig@[j], a));
                                    assert(!st_mid.removable(a));
                                    if pre.data_refs@.contains(a) {
                                        assert(pre.data_refs@.subset_of(st_mid.data_refs@));
                                        assert(st_mid.data_refs@.contains(a));
                                        assert(st_mid.other_refs@.contains(a));
                                    }
                                    assert(!pre.removable(a));
                                }
                            }
                            let (ps, dm, fm) = rw_pat_props_model(
                                orig,
                                j,
                                pre.other_refs@,
                                pre.data_refs@,
                            );
                            let (sv, dn, fn2) = rw_pat_model(sub0, pre.other_refs@, dm);
                            assert(pat_shape(sub2g) == sv);
                            if keep {
                                assert(sv != PatShape::Invalid);
                                assert(rw_pat_prop_model(orig@[j], pre.other_refs@, dm) == (
                                Some(PatPropShape::KeyValue(Box::new(sv))),
                                dn,
                                fn2,
                            ));
                                assert(out_vec_old@ == out_old);
                                assert(out@ == out_old.push(ObjPatProp::KeyValue(Box::new(sub2g))));
                                assert(out@.len() == out_old.len() + 1);
                                lemma_pat_props_shape_prefix(
                                    out_vec_old,
                                    out,
                                    out_old.len() as int,
                                );
                                assert(pat_props_shape(out, out_old.len() as int)
                                    == pat_props_shape(out_vec_old, out_old.len() as int));
                                assert(out@[out_old.len() as int] == ObjPatProp::KeyValue(
                                    Box::new(sub2g),
                                ));
                                assert(pat_prop_shape(out@[out_old.len() as int])
                                    == PatPropShape::KeyValue(Box::new(sv)));
                                assert(pat_props_shape(out, out@.len() as int) == pat_props_shape(
                                    out,
                                    out_old.len() as int,
                                ).push(pat_prop_shape(out@[out_old.len() as int])));
                                assert(pat_props_shape(out, out@.len() as int) == pat_props_shape(
                                    out_vec_old,
                                    out_old.len() as int,
                                ).push(PatPropShape::KeyValue(Box::new(sv))));
                            } else {
                                assert(sub2g == Pat::Invalid);
                                assert(sv == PatShape::Invalid);
                                assert(rw_pat_prop_model(orig@[j], pre.other_refs@, dm) == (
                                None::<PatPropShape>,
                                dn,
                                fn2,
                            ));
                            }
                        }
                    },
                    ObjPatProp::Assign(key, dflt) => {
                        let ghost keyg = key@;
                        let ghost keyg2 = key;
                        let ghost dfltg = dflt;
                        if st.should_remove(&key) {
                            analyze_opt_expr(&dflt, true, st);
                            st.should_run_again = true;
                            proof {
                                assert forall|a: AbstractId|
                                    pre.other_refs@.contains(a) && pat_props_bind(orig, j + 1, a)
                                        implies pat_props_seq_bind(out@, a) by {
                                    if pat_props_bind(orig, j, a) {
                                        let i = choose|i: int|
                                            0 <= i < out_old.len() && pat_prop_binds(
                                                #[trigger] out_old[i],
                                                a,
                                            );
                                        assert(out@[i] == out_old[i]);
                                    } else {
                                        assert(pat_prop_binds(orig@[j], a));
                                        assert(a == keyg);
                                    }
                                }
                                assert forall|a: AbstractId| #![trigger pat_props_seq_bind(out@, a)]
                                    pat_props_seq_bind(out@, a) implies pat_props_bind(
                                    orig,
                                    j + 1,
                                    a,
                                ) && !pre.removable(a) by {
                                    assert(pat_props_seq_bind(out_old, a));
                                }
                                let (ps, dm, fm) = rw_pat_props_model(
                                    orig,
                                    j,
                                    pre.other_refs@,
                                    pre.data_refs@,
                                );
                                assert(rw_pat_prop_model(orig@[j], pre.other_refs@, dm) == (
                                None::<PatPropShape>,
                                dm + opt_expr_ids(dfltg, true),
                                true,
                            ));
                            }
                        } else {
                            out.push(ObjPatProp::Assign(key, dflt));
                            proof {
                                assert forall|a: AbstractId|
                                    pre.other_refs@.contains(a) && pat_props_bind(orig, j + 1, a)
                                        implies pat_props_seq_bind(out@, a) by {
                                    if pat_props_bind(orig, j, a) {
                                        let i = choose|i: int|
                                            0 <= i < out_old.len() && pat_prop_binds(
                                                #[trigger] out_old[i],
                                                a,
                                            );
                                        assert(out@[i] == out_old[i]);
                                    } else {
                                        assert(pat_prop_binds(out@[out@.len() - 1], a));
                                    }
                                }
                                assert forall|a: AbstractId| #![trigger pat_props_seq_bind(out@, a)]
                                    pat_props_seq_bind(out@, a) implies pat_props_bind(
                                    orig,
                                    j + 1,
                                    a,
                                ) && !pre.removable(a) by {
                                    let i = choose|i: int|
                                        0 <= i < out@.len() && pat_prop_binds(
                                            #[trigger] out@[i],
                                            a,
                                        );
                                    if i < out_old.len() {
                                        assert(pat_props_seq_bind(out_old, a));
                                    } else {
                                        assert(out@[i] == ObjPatProp::Assign(keyg2, dfltg));
                                        assert(a == keyg);
                                        assert(pat_prop_binds(orig@[j], a));
                                        assert(!st_mid.removable(a));
                                        if pre.data_refs@.contains(a) {
                                            assert(pre.data_refs@.subset_of(st_mid.data_refs@));
                                            assert(st_mid.data_refs@.contains(a));
                                            assert(st_mid.other_refs@.contains(a));
                                        }
                                        assert(!pre.removable(a));
                                    }
                                }
                                let (ps, dm, fm) = rw_pat_props_model(
                                    orig,
                                    j,
                                    pre.other_refs@,
                                    pre.data_refs@,
                                );
                                assert(rw_pat_prop_model(orig@[j], pre.other_refs@, dm) == (
                                Some(PatPropShape::Assign(keyg, dfltg)),
                                dm,
                                false,
                            ));
                                assert(out_vec_old@ == out_old);
                                assert(out@ == out_old.push(ObjPatProp::Assign(keyg2, dfltg)));
                                assert(out@.len() == out_old.len() + 1);
                                lemma_pat_props_shape_prefix(
                                    out_vec_old,
                                    out,
                                    out_old.len() as int,
                                );
                                assert(pat_props_shape(out, out_old.len() as int)
                                    == pat_props_shape(out_vec_old, out_old.len() as int));
                                assert(out@[out_old.len() as int] == ObjPatProp::Assign(
                                    keyg2,
                                    dfltg,
                                ));
                                assert(keyg2@ == keyg);
                                assert(pat_prop_shape(out@[out_old.len() as int])
                                    == PatPropShape::Assign(keyg, dfltg));
                                assert(pat_props_shape(out, out@.len() as int) == pat_props_shape(
                                    out,
                                    out_old.len() as int,
                                ).push(pat_prop_shape(out@[out_old.len() as int])));
                                assert(pat_props_shape(out, out@.len() as int) == pat_props_shape(
                                    out_vec_old,
                                    out_old.len() as int,
                                ).push(PatPropShape::Assign(keyg, dfltg)));
                            }
                        }
                    },
                    ObjPatProp::Rest(sub) => {
                        let ghost sub0 = *sub;
                        let sub2 = rewrite_pat(*sub, st);
                        let ghost sub2g = sub2;
                        let keep = match &sub2 {
                            Pat::Invalid => false,
                            _ => true,
                        };
                        if keep {
                            out.push(ObjPatProp::Rest(Box::new(sub2)));
                        }
                        proof {
                            assert forall|a: AbstractId|
                                pre.other_refs@.contains(a) && pat_props_bind(orig, j + 1, a)
                                    implies pat_props_seq_bind(out@, a) by {
                                if pat_props_bind(orig, j, a) {
                                    let i = choose|i: int|
                                        0 <= i < out_old.len() && pat_prop_binds(
                                            #[trigger] out_old[i],
                                            a,
                                        );
                                    assert(out@[i] == out_old[i]);
                                } else {
                                    assert(pat_prop_binds(orig@[j], a));
                                    assert(pat_binds(sub0, a));
                                    assert(pat_binds(sub2g, a));
                                    assert(keep);
                                    assert(pat_prop_binds(out@[out@.len() - 1], a));
                                }
                            }
                            assert forall|a: AbstractId| #![trigger pat_props_seq_bind(out@, a)]
                                pat_props_seq_bind(out@, a) implies pat_props_bind(orig, j + 1, a)
                                    && !pre.removable(a) by {
                                let i = choose|i: int|
                                    0 <= i < out@.len() && pat_prop_binds(#[trigger] out@[i], a);
                                if i < out_old.len() {
                                    assert(pat_props_seq_bind(out_old, a));
                                } else {
                                    assert(out@[i] == ObjPatProp::Rest(Box::new(sub2g)));
                                    assert(pat_binds(sub2g, a));
                                    assert(pat_binds(sub0, a));
                                    assert(pat_prop_binds(orig@[j], a));
                                    assert(!st_mid.removable(a));
                                    if pre.data_refs@.contains(a) {
                                        assert(pre.data_refs@.subset_of(st_mid.data_refs@));
                                        assert(st_mid.data_refs@.contains(a));
                                        assert(st_mid.other_refs@.contains(a));
                                    }
                                    assert(!pre.removable(a));
                                }
                            }
                            let (ps, dm, fm) = rw_pat_props_model(
                                orig,
                                j,
                                pre.other_refs@,
                                pre.data_refs@,
                            );
                            let (sv, dn, fn2) = rw_pat_model(sub0, pre.other_refs@, dm);
                            assert(pat_shape(sub2g) == sv);
                            if keep {
                                assert(sv != PatShape::Invalid);
                                assert(rw_pat_prop_model(orig@[j], pre.other_refs@, dm) == (
                                Some(PatPropShape::Rest(Box::new(sv))),
                                dn,
                                fn2,
                            ));
                                assert(out_vec_old@ == out_old);
                                assert(out@ == out_old.push(ObjPatProp::Rest(Box::new(sub2g))));
                                assert(out@.len() == out_old.len() + 1);
                                lemma_pat_props_shape_prefix(
                                    out_vec_old,
                                    out,
                                    out_old.len() as int,
                                );
                                assert(pat_props_shape(out, out_old.len() as int)
                                    == pat_props_shape(out_vec_old, out_old.len() as int));
                                assert(out@[out_old.len() as int] == ObjPatProp::Rest(
                                    Box::new(sub2g),
                                ));
                                assert(pat_prop_shape(out@[out_old.len() as int])
                                    == PatPropShape::Rest(Box::new(sv)));
                                assert(pat_props_shape(out, out@.len() as int) == pat_props_shape(
                                    out,
                                    out_old.len() as int,
                                ).push(pat_prop_shape(out@[out_old.len() as int])));
                                assert(pat_props_shape(out, out@.len() as int) == pat_props_shape(
                                    out_vec_old,
                                    out_old.len() as int,
                                ).push(PatPropShape::Rest(Box::new(sv))));
                            } else {
                                assert(sub2g == Pat::Invalid);
                                assert(sv == PatShape::Invalid);
                                assert(rw_pat_prop_model(orig@[j], pre.other_refs@, dm) == (
                                None::<PatPropShape>,
                                dn,
                                fn2,
                            ));
                            }
                        }
                    },
                }
                proof {
                    j = j + 1;
                }
            }
            if out.len() == 0 {
                proof {
                    assert forall|a: AbstractId|
                        pre.other_refs@.contains(a) && pat_binds(p0, a) implies pat_binds(
                        Pat::Invalid,
                        a,
                    ) by {
                        assert(pat_props_bind(orig, orig@.len() as int, a));
                        assert(pat_props_seq_bind(out@, a));
                    }
                    assert(pat_props_shape(out, 0int) =~= Seq::<PatPropShape>::empty());
                }
                Pat::Invalid
            } else {
                let ghost outg = out;
                let r = Pat::Object(out);
                proof {
                    assert forall|a: AbstractId|
                        pre.other_refs@.contains(a) && pat_binds(p0, a) implies pat_binds(r, a) by {
                        assert(pat_props_bind(orig, orig@.len() as int, a));
                        assert(pat_props_seq_bind(outg@, a));
                        lemma_pat_props_bind_index(outg, outg@.len() as int, a);
                        assert(pat_props_bind(outg, outg@.len() as int, a));
                    }
                    assert forall|a: AbstractId| pat_binds(r, a) implies pat_binds(p0, a)
                        && !pre.removable(a) by {
                        assert(pat_props_bind(outg, outg@.len() as int, a));
                        lemma_pat_props_bind_index(outg, outg@.len() as int, a);
                        assert(pat_props_seq_bind(outg@, a));
                        assert(pat_props_bind(orig, orig@.len() as int, a));
                    }
                    lemma_pat_props_clean_index(outg, outg@.len() as int);
                    assert(pat_clean(r));
                    lemma_pat_props_shape_len(outg, outg@.len() as int);
                    assert(pat_shape(r) == PatShape::Object(
                        pat_props_shape(outg, outg@.len() as int),
                    ));
                }
                r
            }
        },
        Pat::Rest(inner) => {
            let ghost inner0 = *inner;
            let sub2 = rewrite_pat(*inner, st);
            let ghost sub2g = sub2;
            match sub2 {
                Pat::Invalid => {
                    proof {
                        assert forall|a: AbstractId|
                            old(st).other_refs@.contains(a) && pat_binds(p0, a) implies pat_binds(
                            Pat::Invalid,
                            a,
                        ) by {
                            assert(pat_binds(inner0, a));
                            assert(pat_binds(sub2g, a));
                        }
                    }
                    Pat::Invalid
                },
                _ => {
                    let r = Pat::Rest(Box::new(sub2));
                    proof {
                        assert forall|a: AbstractId|
                            old(st).other_refs@.contains(a) && pat_binds(p0, a) implies pat_binds(
                            r,
                            a,
                        ) by {
                            assert(pat_binds(inner0, a));
                            assert(pat_binds(sub2g, a));
                        }
                        assert forall|a: AbstractId| pat_binds(r, a) implies pat_binds(p0, a)
                            && !old(st).removable(a) by {
                            assert(pat_binds(sub2g, a));
                            assert(pat_binds(inner0, a));
                        }
                    }
                    r
                },
            }
        },
        Pat::Invalid => Pat::Invalid,
    }
}

/// Rewrites one variable declarator: its name pattern is pruned; when the
/// name has been reduced to the placeholder, the initializer is fed to the
/// candidate marker. The initializer itself is kept verbatim.
pub fn rewrite_declarator(d: VarDeclarator, st: &mut State) -> (r: VarDeclarator)
    ensures
        rw_frame(*old(st), *final(st)),
        forall|a: AbstractId|
            old(st).other_refs@.contains(a) && declarator_binds(d, a) ==> declarator_binds(r, a),
        forall|a: AbstractId|
            pat_binds(r.name, a) ==> pat_binds(d.name, a) && !old(st).removable(a),
        pat_clean(r.name),
        (r.name matches Pat::Invalid) ==> (final(st).should_run_again && opt_expr_ids(
            d.init,
            true,
        ).subset_of(final(st).data_refs@)),
        ({
            let (dv, d2, f2) = rw_declarator_model(d, old(st).other_refs@, old(st).data_refs@);
            pat_shape(r.name) == dv.name && final(st).data_refs@ == d2
                && final(st).should_run_again == (old(st).should_run_again || f2)
        }),
        r.init == d.init,
{
    let ghost d0 = d;
    let VarDeclarator { name, init } = d;
    let ghost name0 = name;
    let name2 = rewrite_pat(name, st);
    let ghost name2g = name2;
    let invalid = match &name2 {
        Pat::Invalid => true,
        _ => false,
    };
    if invalid {
        let ghost st_before_mark = *st;
        analyze_opt_expr(&init, true, st);
        proof {
            assert(st.data_refs@ == st_before_mark.data_refs@ + opt_expr_ids(d0.init, true));
            assert(opt_expr_ids(d0.init, true).subset_of(st.data_refs@));
        }
        st.should_run_again = true;
    }
    let r = VarDeclarator { name: name2, init };
    proof {
        assert forall|a: AbstractId|
            old(st).other_refs@.contains(a) && declarator_binds(d0, a) implies declarator_binds(
            r,
            a,
        ) by {
            assert(pat_binds(name0, a));
            assert(pat_binds(name2g, a));
        }
        let (nv, d1, f1) = rw_pat_model(d0.name, old(st).other_refs@, old(st).data_refs@);
        assert(pat_shape(name2g) == nv);
        if invalid {
            assert(name2g == Pat::Invalid);
            assert(nv == PatShape::Invalid);
        } else {
            assert(nv != PatShape::Invalid) by {
                match name2g {
                    Pat::Invalid => {
                        assert(false);
                    },
                    _ => {},
                }
            }
        }
    }
    r
}

/// Rewrites a declarator list and drops every declarator whose name has
/// become the placeholder.
pub fn rewrite_declarators(decls: Vec<VarDeclarator>, st: &mut State) -> (r: Vec<VarDeclarator>)
    ensures
        rw_frame(*old(st), *final(st)),
        r@.len() <= decls@.len(),
        forall|a: AbstractId|
            old(st).other_refs@.contains(a) && declarators_bind(decls, decls@.len() as int, a)
                ==> exists|i: int| 0 <= i < r@.len() && declarator_binds(#[trigger] r@[i], a),
        forall|i: int| 0 <= i < r@.len() ==> !((#[trigger] r@[i]).name matches Pat::Invalid),
        forall|i: int| 0 <= i < r@.len() ==> pat_clean((#[trigger] r@[i]).name),
        forall|i: int, a: AbstractId|
            0 <= i < r@.len() && #[trigger] pat_binds(r@[i].name, a) ==> declarators_bind(
                decls,
                decls@.len() as int,
                a,
            ) && !old(st).removable(a),
        ({
            let (ds, d2, f2) = rw_declarators_model(
                decls,
                decls@.len() as int,
                old(st).other_refs@,
                old(st).data_refs@,
            );
            declarators_shape(r, r@.len() as int) == ds && final(st).data_refs@ == d2
                && final(st).should_run_again == (old(st).should_run_again || f2)
        }),
{
    let ghost orig = decls;
    let ghost pre = *st;
    let mut rest = decls;
    let mut out: Vec<VarDeclarator> = Vec::new();
    let ghost mut j: int = 0;
    while rest.len() > 0
        invariant
            0 <= j,
            j + rest@.len() == orig@.len(),
            rest@ == orig@.subrange(j, orig@.len() as int),
            rw_frame(pre, *st),
            out@.len() <= j,
            forall|a: AbstractId|
                pre.other_refs@.contains(a) && declarators_bind(orig, j, a) ==> exists|i: int|
                    0 <= i < out@.len() && declarator_binds(#[trigger] out@[i], a),
            forall|i: int| 0 <= i < out@.len() ==> !((#[trigger] out@[i]).name matches Pat::Invalid),
            forall|i: int| 0 <= i < out@.len() ==> pat_clean((#[trigger] out@[i]).name),
            forall|i: int, a: AbstractId|
                0 <= i < out@.len() && #[trigger] pat_binds(out@[i].name, a)
                    ==> declarators_bind(orig, orig@.len() as int, a) && !pre.removable(a),
            declarators_shape(out, out@.len() as int) == rw_declarators_model(
                orig,
                j,
                pre.other_refs@,
                pre.data_refs@,
            ).0,
            st.data_refs@ == rw_declarators_model(orig, j, pre.other_refs@, pre.data_refs@).1,
            st.should_run_again == (pre.should_run_again || rw_declarators_model(
                orig,
                j,
                pre.other_refs@,
                pre.data_refs@,
            ).2),
        decreases rest@.len(),
    {
        let dd = rest.remove(0);
        proof {
            assert(dd == orig@[j]);
            assert(rest@ =~= orig@.subrange(j + 1, orig@.len() as int));
        }
        let ghost out_old = out@;
        let ghost out_vec_old = out;
        let ghost dd0 = dd;
        let ghost st_mid = *st;
        let d2 = rewrite_declarator(dd, st);
        let ghost d2g = d2;
        let keep = match &d2.name {
            Pat::Invalid => false,
            _ => true,
        };
        if keep {
            out.push(d2);
        }
        proof {
            assert forall|a: AbstractId|
                pre.other_refs@.contains(a) && declarators_bind(orig, j + 1, a) implies exists|
                i: int,
            | 0 <= i < out@.len() && declarator_binds(#[trigger] out@[i], a) by {
                if declarators_bind(orig, j, a) {
                    let i = choose|i: int|
                        0 <= i < out_old.len() && declarator_binds(#[trigger] out_old[i], a);
                    assert(out@[i] == out_old[i]);
                } else {
                    assert(declarator_binds(orig@[j], a));
                    assert(declarator_binds(d2g, a));
                    assert(pat_binds(d2g.name, a));
                    assert(keep);
                    assert(out@[out@.len() - 1] == d2g);
                }
            }
            assert forall|i: int, a: AbstractId|
                0 <= i < out@.len() && #[trigger] pat_binds(out@[i].name, a)
                    implies declarators_bind(orig, orig@.len() as int, a) && !pre.removable(a) by {
                if i < out_old.len() {
                    assert(out@[i] == out_old[i]);
                } else {
                    assert(out@[i] == d2g);
                    assert(pat_binds(dd0.name, a));
                    assert(declarator_binds(orig@[j], a));
                    lemma_declarators_bind_index(orig, orig@.len() as int, a);
                    assert(!st_mid.removable(a));
                    if pre.data_refs@.contains(a) {
                        assert(pre.data_refs@.subset_of(st_mid.data_refs@));
                        assert(st_mid.data_refs@.contains(a));
                        assert(st_mid.other_refs@.contains(a));
                    }
                    assert(!pre.removable(a));
                }
            }
            let (ds, dm, fm) = rw_declarators_model(orig, j, pre.other_refs@, pre.data_refs@);
            let (dv, dn, fn2) = rw_declarator_model(dd0, pre.other_refs@, dm);
            assert(pat_shape(d2g.name) == dv.name);
            if keep {
                assert(dv.name != PatShape::Invalid) by {
                    match d2g.name {
                        Pat::Invalid => {
                            assert(false);
                        },
                        _ => {},
                    }
                }
                assert(declarator_shape(d2g) == dv);
                assert(out_vec_old@ == out_old);
                assert(out@ == out_old.push(d2g));
                assert(out@.len() == out_old.len() + 1);
                lemma_declarators_shape_prefix(out_vec_old, out, out_old.len() as int);
                assert(declarators_shape(out, out_old.len() as int) == declarators_shape(
                    out_vec_old,
                    out_old.len() as int,
                ));
                assert(out@[out_old.len() as int] == d2g);
                assert(declarators_shape(out, out@.len() as int) == declarators_shape(
                    out,
                    out_old.len() as int,
                ).push(declarator_shape(out@[out_old.len() as int])));
            } else {
                assert(d2g.name == Pat::Invalid);
                assert(dv.name == PatShape::Invalid);
            }
        }
        proof {
            j = j + 1;
        }
    }
    out
}

/// What one statement-level rewriting step guarantees: a function
/// declaration whose name is removable becomes the placeholder with its
/// body's identities seeded exactly and the run-again flag raised, and is
/// otherwise untouched; a variable declaration either collapses to the
/// placeholder or keeps a non-empty declarator list free of placeholder
/// names; every other statement is untouched; and every binding of the
/// result is a binding of the input whose identity was not removable.
pub open spec fn stmt_rewrite_ok(s: Stmt, r: Stmt, pre: State, post: State) -> bool {
    &&& (s matches Stmt::Decl(Decl::Fun(name, func)) ==> if pre.removable(name@) {
        r == Stmt::Empty && post.should_run_again && post.data_refs@ == pre.data_refs@
            + func_ids(func, true)
    } else {
        r == s && post == pre
    })
    &&& (s matches Stmt::Decl(Decl::Var(decls)) ==> (r == Stmt::Empty || (r matches Stmt::Decl(
        Decl::Var(d2),
    ) && 1 <= d2@.len() <= decls@.len() && (forall|i: int|
        0 <= i < d2@.len() ==> !((#[trigger] d2@[i]).name matches Pat::Invalid)))))
    &&& (s matches Stmt::Decl(Decl::Var(decls)) ==> ({
        let (ds, d2, f2) = crate::model::rw_declarators_model(
            decls,
            decls@.len() as int,
            pre.other_refs@,
            pre.data_refs@,
        );
        post.data_refs@ == d2 && post.should_run_again == (pre.should_run_again || f2) && if ds.len()
            == 0 {
            r == Stmt::Empty
        } else {
            r matches Stmt::Decl(Decl::Var(v2)) && crate::model::declarators_shape(
                v2,
                v2@.len() as int,
            ) == ds
        }
    }))
    &&& (!(s matches Stmt::Decl(d)) ==> r == s)
    &&& (!(s matches Stmt::Decl(dd)) ==> post == pre)
    &&& (forall|a: AbstractId| #[trigger] stmt_binds(r, a) ==> stmt_binds(s, a) && !pre.removable(
        a,
    ))
}

/// Rewrites one module-scope statement: a function declaration whose name
/// is removable has its body fed to the candidate marker and becomes the
/// no-op placeholder; a variable declaration whose declarator list ends
/// empty becomes the no-op placeholder; everything else is untouched.
pub fn rewrite_stmt(s: Stmt, st: &mut State) -> (r: Stmt)
    ensures
        rw_frame(*old(st), *final(st)),
        forall|a: AbstractId|
            old(st).other_refs@.contains(a) && stmt_binds(s, a) ==> stmt_binds(r, a),
        stmt_rewrite_ok(s, r, *old(st), *final(st)),
{
    let ghost s0 = s;
    match s {
        Stmt::Decl(d) => {
            match d {
                Decl::Fun(name, func) => {
                    if st.should_remove(&name) {
                        analyze_func(&func, true, st);
                        st.should_run_again = true;
                        proof {
                            assert forall|a: AbstractId|
                                old(st).other_refs@.contains(a) && stmt_binds(s0, a)
                                    implies stmt_binds(Stmt::Empty, a) by {
                                assert(a == name@);
                            }
                        }
                        Stmt::Empty
                    } else {
                        let r = Stmt::Decl(Decl::Fun(name, func));
                        proof {
                            assert(r == s0);
                            assert forall|a: AbstractId| #[trigger] stmt_binds(r, a)
                                implies stmt_binds(s0, a) && !old(st).removable(a) by {}
                        }
                        r
                    }
                },
                Decl::Var(decls) => {
                    let ghost decls0 = decls;
                    let d2 = rewrite_declarators(decls, st);
                    let ghost d2g = d2;
                    proof {
                        let (ds, dmf, fmf) = rw_declarators_model(
                            decls0,
                            decls0@.len() as int,
                            old(st).other_refs@,
                            old(st).data_refs@,
                        );
                        assert(declarators_shape(d2g, d2g@.len() as int) == ds);
                        lemma_declarators_shape_len(d2g, d2g@.len() as int);
                        assert(ds.len() == d2g@.len());
                    }
                    if d2.len() == 0 {
                        proof {
                            assert forall|a: AbstractId|
                                old(st).other_refs@.contains(a) && stmt_binds(s0, a)
                                    implies stmt_binds(Stmt::Empty, a) by {
                                assert(declarators_bind(decls0, decls0@.len() as int, a));
                            }
                        }
                        Stmt::Empty
                    } else {
                        let r = Stmt::Decl(Decl::Var(d2));
                        proof {
                            assert forall|a: AbstractId|
                                old(st).other_refs@.contains(a) && stmt_binds(s0, a)
                                    implies stmt_binds(r, a) by {
                                assert(declarators_bind(decls0, decls0@.len() as int, a));
                                assert(exists|i: int|
                                    0 <= i < d2g@.len() && declarator_binds(#[trigger] d2g@[i], a));
                                lemma_declarators_bind_index(d2g, d2g@.len() as int, a);
                                assert(declarators_bind(d2g, d2g@.len() as int, a));
                                assert(decl_binds(Decl::Var(d2g), a));
                            }
                            assert forall|a: AbstractId| #[trigger] stmt_binds(r, a)
                                implies stmt_binds(s0, a) && !old(st).removable(a) by {
                                assert(declarators_bind(d2g, d2g@.len() as int, a));
                                lemma_declarators_bind_index(d2g, d2g@.len() as int, a);
                                let i = choose|i: int|
                                    0 <= i < d2g@.len() && declarator_binds(#[trigger] d2g@[i], a);
                                assert(pat_binds(d2g@[i].name, a));
                                assert(declarators_bind(decls0, decls0@.len() as int, a));
                                assert(stmt_binds(s0, a));
                            }
                        }
                        r
                    }
                },
            }
        },
        Stmt::Expr(e) => Stmt::Expr(e),
        Stmt::Ret(oe) => Stmt::Ret(oe),
        Stmt::Empty => Stmt::Empty,
    }
}


/// Rewrites one import declaration that is not a pure side-effect import:
/// its specifiers are filtered, and when none is left the whole declaration
/// becomes the no-op placeholder.
fn rewrite_import_item(specs: Vec<ImportSpecifier>, st: &mut State) -> (r: ModuleItem)
    requires
        specs@.len() > 0,
    ensures
        rw_frame(*old(st), *final(st)),
        final(st).data_refs@ == old(st).data_refs@,
        final(st).should_run_again == (old(st).should_run_again || kept_imports(
            specs,
            specs@.len() as int,
            old(st).other_refs@,
            old(st).data_refs@,
        ).len() < specs@.len()),
        forall|a: AbstractId|
            old(st).other_refs@.contains(a) && item_binds(ModuleItem::Import(specs), a)
                ==> item_binds(r, a),
        !is_default_item(r),
        ({
            let kept = kept_imports(
                specs,
                specs@.len() as int,
                old(st).other_refs@,
                old(st).data_refs@,
            );
            if kept.len() == 0 {
                r == ModuleItem::Stmt(Stmt::Empty)
            } else {
                r matches ModuleItem::Import(s2) && s2@ == kept
            }
        }),
{
    let ghost specs0 = specs;
    let ghost pre = *st;
    let s2 = rewrite_import(specs, st);
    let ghost s2g = s2;
    if s2.len() == 0 {
        proof {
            assert forall|a: AbstractId|
                pre.other_refs@.contains(a) && item_binds(ModuleItem::Import(specs0), a)
                    implies item_binds(ModuleItem::Stmt(Stmt::Empty), a) by {
                lemma_imports_bind_index(specs0, specs0@.len() as int, a);
                lemma_kept_imports_bind(
                    specs0,
                    specs0@.len() as int,
                    pre.other_refs@,
                    pre.data_refs@,
                    a,
                );
            }
        }
        ModuleItem::Stmt(Stmt::Empty)
    } else {
        let r = ModuleItem::Import(s2);
        proof {
            assert forall|a: AbstractId|
                pre.other_refs@.contains(a) && item_binds(ModuleItem::Import(specs0), a)
                    implies item_binds(r, a) by {
                lemma_imports_bind_index(specs0, specs0@.len() as int, a);
                lemma_kept_imports_bind(
                    specs0,
                    specs0@.len() as int,
                    pre.other_refs@,
                    pre.data_refs@,
                    a,
                );
                let kept = kept_imports(
                    specs0,
                    specs0@.len() as int,
                    pre.other_refs@,
                    pre.data_refs@,
                );
                let iw = choose|i: int|
                    0 <= i < kept.len() && import_local(#[trigger] kept[i]) == a;
                assert(s2g@[iw] == kept[iw]);
                assert(0 <= iw < s2g@.len() && import_local(s2g@[iw]) == a);
                lemma_imports_bind_index(s2g, s2g@.len() as int, a);
                assert(import_specs_bind(s2g, s2g@.len() as int, a));
                assert(r == ModuleItem::Import(s2g));
            }
        }
        r
    }
}

/// Rewrites one module item by the per-node-kind rules: import specifiers
/// are filtered (a specifier-empty import that was not a pure side-effect
/// import disappears); a targeted exported function becomes a no-op after
/// its body is fed to the candidate marker; exported variable declarators
/// are pruned; named-export specifiers are filtered; a targeted default
/// export is replaced by the canonical empty function and never deleted;
/// plain statements follow the statement rules.
#[verifier::rlimit(30)]
pub fn rewrite_item(item: ModuleItem, st: &mut State) -> (r: ModuleItem)
    ensures
        rw_frame(*old(st), *final(st)),
        forall|a: AbstractId|
            old(st).other_refs@.contains(a) && !is_target(old(st).targets(), a.0) && item_binds(
                item,
                a,
            ) ==> item_binds(r, a),
        is_default_item(r) == is_default_item(item),
        (is_default_item(item) && is_target(old(st).targets(), default_name()))
            ==> canonical_default(r),
        (is_default_item(item) && !is_target(old(st).targets(), default_name())) ==> r == item,
        (item matches ModuleItem::Import(specs) && specs@.len() == 0) ==> (r == item
            && *final(st) == *old(st)),
        item matches ModuleItem::Stmt(s) ==> (r matches ModuleItem::Stmt(s2) && stmt_rewrite_ok(
            s,
            s2,
            *old(st),
            *final(st),
        )),
        item matches ModuleItem::ExportDecl(Decl::Var(decls)) ==> (r == ModuleItem::Stmt(
            Stmt::Empty,
        ) || (r matches ModuleItem::ExportDecl(Decl::Var(d2)) && 1 <= d2@.len() <= decls@.len()
            && (forall|i: int|
            0 <= i < d2@.len() ==> !((#[trigger] d2@[i]).name matches Pat::Invalid)))),
        item matches ModuleItem::ExportDecl(Decl::Var(decls)) ==> ({
            let (ds, d2s, f2s) = crate::model::rw_declarators_model(
                decls,
                decls@.len() as int,
                old(st).other_refs@,
                old(st).data_refs@,
            );
            final(st).data_refs@ == d2s && final(st).should_run_again == (old(
                st,
            ).should_run_again || f2s) && if ds.len() == 0 {
                r == ModuleItem::Stmt(Stmt::Empty)
            } else {
                r matches ModuleItem::ExportDecl(Decl::Var(v2))
                    && crate::model::declarators_shape(v2, v2@.len() as int) == ds
            }
        }),
        item matches ModuleItem::ExportDefaultDecl(dd) ==> r matches ModuleItem::ExportDefaultDecl(
            dd2,
        ),
        item matches ModuleItem::ExportDefaultExpr(e) ==> r matches ModuleItem::ExportDefaultExpr(
            e2,
        ),
        item matches ModuleItem::ExportDefaultDecl(dd) ==> *final(st) == *old(st),
        item matches ModuleItem::ExportDefaultExpr(e) ==> *final(st) == *old(st),
        (item matches ModuleItem::ExportNamed(specs) && specs@.len() == 0) ==> *final(st) == *old(
            st,
        ),
        item matches ModuleItem::Import(specs) ==> (specs@.len() > 0 ==> (final(st).data_refs@
            == old(st).data_refs@ && final(st).should_run_again == (old(st).should_run_again
            || kept_imports(
            specs,
            specs@.len() as int,
            old(st).other_refs@,
            old(st).data_refs@,
        ).len() < specs@.len()))),
        item matches ModuleItem::ExportNamed(specs) ==> (specs@.len() > 0 ==> (final(st).data_refs@
            == old(st).data_refs@ + export_seed_ids(specs, specs@.len() as int, old(st).targets())
            && final(st).should_run_again == (old(st).should_run_again || kept_exports(
            specs,
            specs@.len() as int,
            old(st).targets(),
        ).len() < specs@.len()))),
        item matches ModuleItem::Import(specs) ==> (specs@.len() > 0 ==> ({
            let kept = kept_imports(
                specs,
                specs@.len() as int,
                old(st).other_refs@,
                old(st).data_refs@,
            );
            if kept.len() == 0 {
                r == ModuleItem::Stmt(Stmt::Empty)
            } else {
                r matches ModuleItem::Import(s2) && s2@ == kept
            }
        })),
        item matches ModuleItem::ExportNamed(specs) ==> ({
            let kept = kept_exports(specs, specs@.len() as int, old(st).targets());
            if kept.len() == 0 {
                r == ModuleItem::Stmt(Stmt::Empty)
            } else {
                r matches ModuleItem::ExportNamed(s2) && s2@ == kept
            }
        }),
        item matches ModuleItem::ExportDecl(Decl::Fun(name, func)) ==> if is_target(
            old(st).targets(),
            name.sym@,
        ) {
            r == ModuleItem::Stmt(Stmt::Empty) && final(st).should_run_again
                && final(st).data_refs@ == old(st).data_refs@ + func_ids(func, true)
        } else {
            r == item && *final(st) == *old(st)
        },
{
    let ghost item0 = item;
    match item {
        ModuleItem::Import(specs) => {
            if specs.len() == 0 {
                return ModuleItem::Import(specs);
            }
            rewrite_import_item(specs, st)
        },
        ModuleItem::ExportDecl(d) => {
            match d {
                Decl::Fun(name, func) => {
                    let ghost nameg = name@;
                    let ghost symg = name.sym@;
                    if st.should_remove_identifier(&name) {
                        analyze_func(&func, true, st);
                        st.should_run_again = true;
                        proof {
                            assert forall|a: AbstractId|
                                old(st).other_refs@.contains(a) && !is_target(
                                    old(st).targets(),
                                    a.0,
                                ) && item_binds(item0, a) implies item_binds(
                                ModuleItem::Stmt(Stmt::Empty),
                                a,
                            ) by {
                                assert(a == nameg);
                                assert(a.0 == symg);
                            }
                        }
                        ModuleItem::Stmt(Stmt::Empty)
                    } else {
                        ModuleItem::ExportDecl(Decl::Fun(name, func))
                    }
                },
                Decl::Var(decls) => {
                    let ghost decls0 = decls;
                    let d2 = rewrite_declarators(decls, st);
                    let ghost d2g = d2;
                    proof {
                        let (ds, dmf, fmf) = rw_declarators_model(
                            decls0,
                            decls0@.len() as int,
                            old(st).other_refs@,
                            old(st).data_refs@,
                        );
                        assert(declarators_shape(d2g, d2g@.len() as int) == ds);
                        lemma_declarators_shape_len(d2g, d2g@.len() as int);
                        assert(ds.len() == d2g@.len());
                    }
                    if d2.len() == 0 {
                        proof {
                            assert forall|a: AbstractId|
                                old(st).other_refs@.contains(a) && item_binds(item0, a)
                                    implies item_binds(ModuleItem::Stmt(Stmt::Empty), a) by {
                                assert(declarators_bind(decls0, decls0@.len() as int, a));
                            }
                        }
                        ModuleItem::Stmt(Stmt::Empty)
                    } else {
                        let r = ModuleItem::ExportDecl(Decl::Var(d2));
                        proof {
                            assert forall|a: AbstractId|
                                old(st).other_refs@.contains(a) && item_binds(item0, a)
                                    implies item_binds(r, a) by {
                                assert(declarators_bind(decls0, decls0@.len() as int, a));
                                assert(exists|i: int|
                                    0 <= i < d2g@.len() && declarator_binds(#[trigger] d2g@[i], a));
                                lemma_declarators_bind_index(d2g, d2g@.len() as int, a);
                                assert(declarators_bind(d2g, d2g@.len() as int, a));
                                assert(decl_binds(Decl::Var(d2g), a));
                            }
                        }
                        r
                    }
                },
            }
        },
        ModuleItem::ExportNamed(specs) => {
            if specs.len() == 0 {
                return ModuleItem::Stmt(Stmt::Empty);
            }
            let s2 = rewrite_export_specs(specs, st);
            if s2.len() == 0 {
                ModuleItem::Stmt(Stmt::Empty)
            } else {
                ModuleItem::ExportNamed(s2)
            }
        },
        ModuleItem::ExportDefaultDecl(dd) => {
            if st.should_remove_default() {
                ModuleItem::ExportDefaultDecl(DefaultDecl::Fun(None, create_empty_fn()))
            } else {
                ModuleItem::ExportDefaultDecl(dd)
            }
        },
        ModuleItem::ExportDefaultExpr(e) => {
            if st.should_remove_default() {
                ModuleItem::ExportDefaultExpr(Expr::Fun(None, create_empty_fn()))
            } else {
                ModuleItem::ExportDefaultExpr(e)
            }
        },
        ModuleItem::Stmt(s) => {
            let ghost sg = s;
            let s2 = rewrite_stmt(s, st);
            let ghost s2g = s2;
            let r = ModuleItem::Stmt(s2);
            proof {
                assert forall|a: AbstractId|
                    old(st).other_refs@.contains(a) && item_binds(item0, a) implies item_binds(
                    r,
                    a,
                ) by {
                    assert(stmt_binds(sg, a));
                    assert(stmt_binds(s2g, a));
                }
            }
            r
        },
    }
}

/// Every specifier the named-export filter keeps exports under an
/// untargeted name.
pub proof fn lemma_kept_exports_untargeted(v: Vec<ExportSpecifier>, n: int, targets: Seq<String>)
    requires
        0 <= n <= v@.len(),
    ensures
        forall|j: int|
            0 <= j < kept_exports(v, n, targets).len() ==> !is_target(
                targets,
                exported_name(#[trigger] kept_exports(v, n, targets)[j]),
            ),
    decreases n,
{
    if n > 0 {
        lemma_kept_exports_untargeted(v, n - 1, targets);
        let rest = kept_exports(v, n - 1, targets);
        let kept = kept_exports(v, n, targets);
        assert forall|j: int|
            0 <= j < kept.len() implies !is_target(
            targets,
            exported_name(#[trigger] kept[j]),
        ) by {
            if j < rest.len() {
                assert(kept[j] == rest[j]);
            }
        }
    }
}

/// What holds of every item that survives one rewriter pass: it is not a
/// placeholder, it is not an exported function declaration under a targeted
/// name, and none of its named-export specifiers exports under a targeted
/// name.
pub open spec fn pass_item_ok(it: ModuleItem, targets: Seq<String>) -> bool {
    &&& !(it matches ModuleItem::Stmt(Stmt::Empty))
    &&& (it matches ModuleItem::ExportDecl(Decl::Fun(name, f)) ==> !is_target(
        targets,
        name.sym@,
    ))
    &&& (it matches ModuleItem::ExportNamed(specs) ==> forall|k: int|
        0 <= k < specs@.len() ==> !is_target(targets, exported_name(#[trigger] specs@[k])))
}

/// What one analyzer-then-rewriter pass does, exactly: the analyzer
/// classifies the input module's references from the persistent set `d0`,
/// and the rewriter's item rules produce the output module's shape and the
/// persistent set `d1` for the next pass.
pub open spec fn pass_exact(
    m1: Module,
    m2: Module,
    d0: Set<AbstractId>,
    d1: Set<AbstractId>,
    targets: Seq<String>,
) -> bool {
    let other = module_other_ids(m1, targets);
    let dstart = d0 + module_data_ids(m1, targets);
    let (is2, d2, f2) = crate::model::rw_items_model(
        m1.items,
        m1.items@.len() as int,
        other,
        dstart,
        targets,
    );
    crate::model::items_shape(m2.items, m2.items@.len() as int) == is2 && d1 == d2
}

/// Whether one analyzer-then-rewriter pass over the module, from the given
/// persistent set, deletes nothing and seeds no new candidate: the fixed
/// point of the transform.
pub open spec fn pass_quiet(m1: Module, d0: Set<AbstractId>, targets: Seq<String>) -> bool {
    let other = module_other_ids(m1, targets);
    let dstart = d0 + module_data_ids(m1, targets);
    !crate::model::rw_items_model(m1.items, m1.items@.len() as int, other, dstart, targets).2
}

/// What one analyzer-then-rewriter pass preserves, as a relation between
/// the module before and after: every module-scope binding of an identity
/// that code outside the removal-marked sub-trees of the input references,
/// and whose symbol names no removal target, survives the pass. The
/// transient set always wins.
pub open spec fn pass_preserves(m1: Module, m2: Module, targets: Seq<String>) -> bool {
    forall|a: AbstractId|
        module_other_ids(m1, targets).contains(a) && !is_target(targets, a.0) && module_binds(
            m1,
            a,
        ) ==> module_binds(m2, a)
}

/// One full rewriter pass over the module: every item is rewritten by its
/// rule, then the no-op placeholders are filtered out of the item list.
/// The item count never grows; the number of default-export slots is
/// preserved, and when the default export is targeted every one of them is
/// the canonical empty function afterwards; module-scope bindings of
/// identities that the transient set holds and that name no removal target
/// all survive.
pub fn rewrite_module(m: Module, st: &mut State) -> (r: Module)
    ensures
        rw_frame(*old(st), *final(st)),
        r.items@.len() <= m.items@.len(),
        count_defaults(r.items@) == count_defaults(m.items@),
        is_target(old(st).targets(), default_name()) ==> all_defaults_canonical(r.items@),
        forall|i: int|
            0 <= i < r.items@.len() ==> pass_item_ok(#[trigger] r.items@[i], old(st).targets()),
        forall|a: AbstractId|
            old(st).other_refs@.contains(a) && !is_target(old(st).targets(), a.0) && module_binds(
                m,
                a,
            ) ==> module_binds(r, a),
        ({
            let (is2, d2, f2) = rw_items_model(
                m.items,
                m.items@.len() as int,
                old(st).other_refs@,
                old(st).data_refs@,
                old(st).targets(),
            );
            items_shape(r.items, r.items@.len() as int) == is2 && final(st).data_refs@ == d2
                && final(st).should_run_again == (old(st).should_run_again || f2)
        }),
{
    let ghost orig = m.items;
    let ghost pre = *st;
    let Module { items } = m;
    let mut rest = items;
    let mut out: Vec<ModuleItem> = Vec::new();
    let ghost mut j: int = 0;
    while rest.len() > 0
        invariant
            0 <= j,
            j + rest@.len() == orig@.len(),
            rest@ == orig@.subrange(j, orig@.len() as int),
            rw_frame(pre, *st),
            out@.len() <= j,
            count_defaults(out@) == count_defaults(orig@.subrange(0, j)),
            is_target(pre.targets(), default_name()) ==> all_defaults_canonical(out@),
            forall|i: int| 0 <= i < out@.len() ==> pass_item_ok(#[trigger] out@[i], pre.targets()),
            items_shape(out, out@.len() as int) == rw_items_model(
                orig,
                j,
                pre.other_refs@,
                pre.data_refs@,
                pre.targets(),
            ).0,
            st.data_refs@ == rw_items_model(
                orig,
                j,
                pre.other_refs@,
                pre.data_refs@,
                pre.targets(),
            ).1,
            st.should_run_again == (pre.should_run_again || rw_items_model(
                orig,
                j,
                pre.other_refs@,
                pre.data_refs@,
                pre.targets(),
            ).2),
            forall|a: AbstractId|
                pre.other_refs@.contains(a) && !is_target(pre.targets(), a.0) && items_bind(
                    orig,
                    j,
                    a,
                ) ==> exists|i: int| 0 <= i < out@.len() && item_binds(#[trigger] out@[i], a),
        decreases rest@.len(),
    {
        let it = rest.remove(0);
        proof {
            assert(it == orig@[j]);
            assert(rest@ =~= orig@.subrange(j + 1, orig@.len() as int));
        }
        let ghost out_old = out@;
        let ghost out_vec_old = out;
        let ghost it0 = it;
        let ghost st_top = *st;
        let it2 = rewrite_item(it, st);
        let ghost it2g = it2;
        let keep = match &it2 {
            ModuleItem::Stmt(Stmt::Empty) => false,
            _ => true,
        };
        if keep {
            out.push(it2);
        }
        proof {
            assert(orig@.subrange(0, j + 1).drop_last() =~= orig@.subrange(0, j));
            assert(orig@.subrange(0, j + 1).last() == orig@[j]);
            if keep {
                assert(out@.drop_last() =~= out_old);
                assert(out@.last() == it2g);
                match it0 {
                    ModuleItem::ExportNamed(sp) => {
                        if sp@.len() > 0 {
                            lemma_kept_exports_untargeted(sp, sp@.len() as int, pre.targets());
                        }
                        assert(pass_item_ok(it2g, pre.targets()));
                    },
                    _ => {
                        assert(pass_item_ok(it2g, pre.targets()));
                    },
                }
            } else {
                assert(!is_default_item(it2g));
            }
            assert forall|i: int|
                0 <= i < out@.len() implies pass_item_ok(#[trigger] out@[i], pre.targets()) by {
                if i < out_old.len() {
                    assert(out@[i] == out_old[i]);
                } else {
                    assert(out@[i] == it2g);
                }
            }
            assert(count_defaults(out@) == count_defaults(orig@.subrange(0, j + 1)));
            assert forall|a: AbstractId|
                pre.other_refs@.contains(a) && !is_target(pre.targets(), a.0) && items_bind(
                    orig,
                    j + 1,
                    a,
                ) implies exists|i: int|
                0 <= i < out@.len() && item_binds(#[trigger] out@[i], a) by {
                if items_bind(orig, j, a) {
                    let i = choose|i: int|
                        0 <= i < out_old.len() && item_binds(#[trigger] out_old[i], a);
                    assert(out@[i] == out_old[i]);
                } else {
                    assert(item_binds(orig@[j], a));
                    assert(item_binds(it2g, a));
                    assert(keep);
                    assert(out@[out@.len() - 1] == it2g);
                }
            }
            let (is0, dm, fm) = rw_items_model(
                orig,
                j,
                pre.other_refs@,
                pre.data_refs@,
                pre.targets(),
            );
            assert(st_top.data_refs@ == dm);
            assert(st_top.other_refs@ == pre.other_refs@);
            assert(st_top.targets() == pre.targets());
            let (e2, dn, fn2) = rw_item_model(orig@[j], pre.other_refs@, dm, pre.targets());
            match it0 {
                ModuleItem::Import(sp) => {
                    if sp@.len() == 0 {
                        assert(it2g == it0);
                        assert(e2 == Some(ItemShape::Import(sp@)));
                    } else {
                        let kept = kept_imports(sp, sp@.len() as int, pre.other_refs@, dm);
                        if kept.len() == 0 {
                            assert(it2g == ModuleItem::Stmt(Stmt::Empty));
                            assert(!keep);
                        } else {
                            assert(it2g matches ModuleItem::Import(s2) && s2@ == kept);
                            assert(item_shape(it2g) == ItemShape::Import(kept));
                        }
                    }
                    assert(st.data_refs@ == dn);
                    assert(st.should_run_again == ((pre.should_run_again || fm) || fn2));
                },
                ModuleItem::ExportDecl(d0m) => {
                    assert((e2, dn, fn2) == rw_exp_decl_model(
                        d0m,
                        pre.other_refs@,
                        dm,
                        pre.targets(),
                    ));
                    match d0m {
                        Decl::Fun(nm, fu) => {
                            if is_target(pre.targets(), nm.sym@) {
                                assert(it2g == ModuleItem::Stmt(Stmt::Empty));
                                assert(!keep);
                                assert(st.data_refs@ == st_top.data_refs@ + func_ids(fu, true));
                                assert(rw_exp_decl_model(d0m, pre.other_refs@, dm, pre.targets())
                                    == (None::<ItemShape>, dm + func_ids(fu, true), true));
                                assert((e2, dn, fn2) == rw_exp_decl_model(
                                    d0m,
                                    pre.other_refs@,
                                    dm,
                                    pre.targets(),
                                ));
                                assert(st.data_refs@ == dn);
                                assert(st.should_run_again == ((pre.should_run_again || fm)
                                    || fn2));
                            } else {
                                assert(it2g == it0);
                                assert(item_shape(it2g) == ItemShape::ExportFun(nm, fu));
                                assert(!is_target(st_top.targets(), nm.sym@));
                                assert(*st == st_top);
                                assert(rw_exp_decl_model(d0m, pre.other_refs@, dm, pre.targets())
                                    == (Some(ItemShape::ExportFun(nm, fu)), dm, false));
                                assert(st.data_refs@ == dn);
                                assert(st.should_run_again == ((pre.should_run_again || fm)
                                    || fn2));
                            }
                        },
                        Decl::Var(dsm) => {
                            let (ds, dvv, fvv) = rw_declarators_model(
                                dsm,
                                dsm@.len() as int,
                                pre.other_refs@,
                                dm,
                            );
                            if ds.len() == 0 {
                                assert(it2g == ModuleItem::Stmt(Stmt::Empty));
                                assert(!keep);
                                assert(st.data_refs@ == dn);
                                assert(st.should_run_again == ((pre.should_run_again || fm)
                                    || fn2));
                            } else {
                                assert(it2g matches ModuleItem::ExportDecl(Decl::Var(v2))
                                    && declarators_shape(v2, v2@.len() as int) == ds);
                                assert(item_shape(it2g) == ItemShape::ExportVar(ds));
                                assert(st.data_refs@ == dn);
                                assert(st.should_run_again == ((pre.should_run_again || fm)
                                    || fn2));
                            }
                        },
                    }
                    assert(st.data_refs@ == dn);
                    assert(st.should_run_again == ((pre.should_run_again || fm) || fn2));
                },
                ModuleItem::ExportNamed(sp) => {
                    if sp@.len() == 0 {
                        assert(it2g == ModuleItem::Stmt(Stmt::Empty));
                        assert(!keep);
                    } else {
                        let kept = kept_exports(sp, sp@.len() as int, pre.targets());
                        if kept.len() == 0 {
                            assert(it2g == ModuleItem::Stmt(Stmt::Empty));
                            assert(!keep);
                        } else {
                            assert(it2g matches ModuleItem::ExportNamed(s2) && s2@ == kept);
                            assert(item_shape(it2g) == ItemShape::ExportNamed(kept));
                        }
                    }
                    assert(st.data_refs@ == dn);
                    assert(st.should_run_again == ((pre.should_run_again || fm) || fn2));
                },
                ModuleItem::ExportDefaultDecl(ddm) => {
                    if is_target(pre.targets(), default_name()) {
                        assert(canonical_default(it2g));
                        assert(it2g matches ModuleItem::ExportDefaultDecl(dd2m));
                        assert(item_shape(it2g) == ItemShape::CanonicalDefaultDecl);
                    } else {
                        assert(it2g == it0);
                        assert(item_shape(it2g) == default_decl_shape(ddm));
                    }
                    assert(st.data_refs@ == dn);
                    assert(st.should_run_again == ((pre.should_run_again || fm) || fn2));
                },
                ModuleItem::ExportDefaultExpr(em) => {
                    if is_target(pre.targets(), default_name()) {
                        assert(canonical_default(it2g));
                        assert(it2g matches ModuleItem::ExportDefaultExpr(e2m));
                        assert(item_shape(it2g) == ItemShape::CanonicalDefaultExpr);
                    } else {
                        assert(it2g == it0);
                        assert(item_shape(it2g) == default_expr_shape(em));
                    }
                    assert(st.data_refs@ == dn);
                    assert(st.should_run_again == ((pre.should_run_again || fm) || fn2));
                },
                ModuleItem::Stmt(sm) => {
                    assert(it2g matches ModuleItem::Stmt(s2m) && stmt_rewrite_ok(
                        sm,
                        s2m,
                        st_top,
                        *st,
                    ));
                    let (ss, dss, fss) = rw_stmt_model(sm, pre.other_refs@, dm);
                    assert(dn == dss && fn2 == fss);
                    match sm {
                        Stmt::Decl(dm2) => {
                            match dm2 {
                                Decl::Fun(nm, fu) => {
                                    if st_top.removable(nm@) {
                                        assert(it2g == ModuleItem::Stmt(Stmt::Empty));
                                        assert(!keep);
                                    } else {
                                        assert(it2g == it0);
                                        assert(item_shape(it2g) == ItemShape::Plain(
                                            StmtShape::Fun(nm, fu),
                                        ));
                                    }
                                },
                                Decl::Var(dsm) => {
                                    let (ds, dvv, fvv) = rw_declarators_model(
                                        dsm,
                                        dsm@.len() as int,
                                        pre.other_refs@,
                                        dm,
                                    );
                                    if ds.len() == 0 {
                                        assert(it2g == ModuleItem::Stmt(Stmt::Empty));
                                        assert(!keep);
                                    } else {
                                        assert(it2g matches ModuleItem::Stmt(Stmt::Decl(
                                            Decl::Var(v2),
                                        )) && declarators_shape(v2, v2@.len() as int) == ds);
                                        assert(item_shape(it2g) == ItemShape::Plain(
                                            StmtShape::Var(ds),
                                        ));
                                    }
                                },
                            }
                        },
                        Stmt::Empty => {
                            assert(it2g == it0);
                            assert(!keep);
                        },
                        _ => {
                            assert(it2g == it0);
                            assert(item_shape(it2g) == ItemShape::Plain(StmtShape::Other(sm)));
                        },
                    }
                    assert(st.data_refs@ == dn);
                    assert(st.should_run_again == ((pre.should_run_again || fm) || fn2));
                },
            }
            assert(st.data_refs@ == dn);
            assert(st.should_run_again == ((pre.should_run_again || fm) || fn2));
            if keep {
                assert(out_vec_old@ == out_old);
                assert(out@ == out_old.push(it2g));
                assert(out@.len() == out_old.len() + 1);
                lemma_items_shape_prefix(out_vec_old, out, out_old.len() as int);
                assert(items_shape(out, out_old.len() as int) == items_shape(
                    out_vec_old,
                    out_old.len() as int,
                ));
                assert(out@[out_old.len() as int] == it2g);
                assert(items_shape(out, out@.len() as int) == items_shape(
                    out,
                    out_old.len() as int,
                ).push(item_shape(out@[out_old.len() as int])));
            }
            j = j + 1;
        }
    }
    let ghost outg = out;
    let r = Module { items: out };
    proof {
        assert(orig@.subrange(0, orig@.len() as int) =~= orig@);
        assert forall|a: AbstractId|
            pre.other_refs@.contains(a) && !is_target(pre.targets(), a.0) && module_binds(
                Module { items: orig },
                a,
            ) implies module_binds(r, a) by {
            assert(items_bind(orig, orig@.len() as int, a));
            lemma_items_bind_index(outg, outg@.len() as int, a);
        }
    }
    r
}

} // verus!
