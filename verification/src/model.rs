//! The functional model of the pattern and declarator rewrite rules.
//!
//! A rewritten pattern cannot be built by a specification function directly
//! — its containers are vectors — so the model speaks in mirror values
//! whose containers are sequences: [`PatShape`] is to [`Pat`] what a
//! sequence is to a vector. The model functions compute, from a node and
//! the two reference sets, exactly the shape of the rewritten node, the
//! persistent set afterwards, and whether anything was deleted or seeded;
//! the rewriter's contracts equate their results with these functions.

use vstd::prelude::*;
use crate::ids::AbstractId;
use crate::ast::{
    Decl, DefaultDecl, Expr, ExportSpecifier, ImportSpecifier, ModuleItem, ObjPatProp, Pat, Stmt,
    VarDeclarator,
};
use crate::ids::Id;
use crate::ast::Func;
use crate::refs::{func_ids, opt_expr_ids};
use crate::rewrite::{export_seed_ids, kept_exports, kept_imports};
use crate::state::{default_name, is_target};

verus! {

broadcast use vstd::std_specs::vec::axiom_vec_index_decreases;

/// The shape of a pattern: a pattern with its containers as sequences and
/// its identities abstract. Initializer and default-value expressions are
/// never rewritten and appear verbatim.
pub enum PatShape {
    Ident(AbstractId),
    Array(Seq<Option<PatShape>>),
    Object(Seq<PatPropShape>),
    Rest(Box<PatShape>),
    Invalid,
}

/// The shape of one object-pattern sub-pattern.
pub enum PatPropShape {
    KeyValue(Box<PatShape>),
    Assign(AbstractId, Option<Box<Expr>>),
    Rest(Box<PatShape>),
}

/// The shape of one variable declarator.
pub struct DeclaratorShape {
    pub name: PatShape,
    pub init: Option<Box<Expr>>,
}

/// The shape of a pattern value.
pub open spec fn pat_shape(p: Pat) -> PatShape
    decreases p, 0int,
{
    match p {
        Pat::Ident(id) => PatShape::Ident(id@),
        Pat::Array(elems) => PatShape::Array(opt_pats_shape(elems, elems@.len() as int)),
        Pat::Object(props) => PatShape::Object(pat_props_shape(props, props@.len() as int)),
        Pat::Rest(inner) => PatShape::Rest(Box::new(pat_shape(*inner))),
        Pat::Invalid => PatShape::Invalid,
    }
}

/// The shape of one array-pattern element.
pub open spec fn opt_pat_shape(op: Option<Pat>) -> Option<PatShape>
    decreases op, 1int,
{
    match op {
        Some(p) => Some(pat_shape(p)),
        None => None,
    }
}

/// The shapes of the first `n` array-pattern elements.
pub open spec fn opt_pats_shape(v: Vec<Option<Pat>>, n: int) -> Seq<Option<PatShape>>
    decreases v, n,
{
    if n <= 0 || n > v@.len() {
        Seq::empty()
    } else {
        opt_pats_shape(v, n - 1).push(opt_pat_shape(v@[n - 1]))
    }
}

/// The shape of one object-pattern sub-pattern value.
pub open spec fn pat_prop_shape(p: ObjPatProp) -> PatPropShape
    decreases p, 1int,
{
    match p {
        ObjPatProp::KeyValue(sub) => PatPropShape::KeyValue(Box::new(pat_shape(*sub))),
        ObjPatProp::Assign(key, dflt) => PatPropShape::Assign(key@, dflt),
        ObjPatProp::Rest(sub) => PatPropShape::Rest(Box::new(pat_shape(*sub))),
    }
}

/// The shapes of the first `n` object-pattern sub-patterns.
pub open spec fn pat_props_shape(v: Vec<ObjPatProp>, n: int) -> Seq<PatPropShape>
    decreases v, n,
{
    if n <= 0 || n > v@.len() {
        Seq::empty()
    } else {
        pat_props_shape(v, n - 1).push(pat_prop_shape(v@[n - 1]))
    }
}

/// The shape of one declarator value.
pub open spec fn declarator_shape(d: VarDeclarator) -> DeclaratorShape
    decreases d, 2int,
{
    DeclaratorShape { name: pat_shape(d.name), init: d.init }
}

/// The shapes of the first `n` declarators.
pub open spec fn declarators_shape(v: Vec<VarDeclarator>, n: int) -> Seq<DeclaratorShape>
    decreases v, n,
{
    if n <= 0 || n > v@.len() {
        Seq::empty()
    } else {
        declarators_shape(v, n - 1).push(declarator_shape(v@[n - 1]))
    }
}

/// Array-pattern cleanup: drops every element that reduced to the
/// placeholder, keeping holes and survivors in order.
pub open spec fn drop_invalid_elems(s: Seq<Option<PatShape>>) -> Seq<Option<PatShape>>
    decreases s.len(),
{
    if s.len() == 0 {
        Seq::empty()
    } else {
        let rest = drop_invalid_elems(s.drop_last());
        if s.last() == Some(PatShape::Invalid) {
            rest
        } else {
            rest.push(s.last())
        }
    }
}

/// Removability against the two reference sets: the transient set wins.
pub open spec fn shape_removable(other: Set<AbstractId>, data: Set<AbstractId>, a: AbstractId) -> bool {
    data.contains(a) && !other.contains(a)
}

/// The pattern rewrite rules of one pass, as a function of the pattern and
/// the two reference sets: the rewritten shape, the persistent set
/// afterwards, and whether anything was deleted or seeded. A removable
/// identifier becomes the placeholder; array and object patterns shed
/// placeholder elements, removable shorthand keys (seeding their default
/// values) and placeholder rest targets, and collapse to the placeholder
/// when they end empty; an initially empty pattern is untouched.
pub open spec fn rw_pat_model(p: Pat, other: Set<AbstractId>, d0: Set<AbstractId>) -> (
    PatShape,
    Set<AbstractId>,
    bool,
)
    decreases p, 2int,
{
    match p {
        Pat::Ident(id) => if shape_removable(other, d0, id@) {
            (PatShape::Invalid, d0, true)
        } else {
            (PatShape::Ident(id@), d0, false)
        },
        Pat::Array(elems) => if elems@.len() == 0 {
            (PatShape::Array(Seq::empty()), d0, false)
        } else {
            let (es, d2, f2) = rw_opt_pats_model(elems, elems@.len() as int, other, d0);
            let kept = drop_invalid_elems(es);
            if kept.len() == 0 {
                (PatShape::Invalid, d2, f2)
            } else {
                (PatShape::Array(kept), d2, f2)
            }
        },
        Pat::Object(props) => if props@.len() == 0 {
            (PatShape::Object(Seq::empty()), d0, false)
        } else {
            let (ps, d2, f2) = rw_pat_props_model(props, props@.len() as int, other, d0);
            if ps.len() == 0 {
                (PatShape::Invalid, d2, f2)
            } else {
                (PatShape::Object(ps), d2, f2)
            }
        },
        Pat::Rest(inner) => {
            let (sv, d2, f2) = rw_pat_model(*inner, other, d0);
            if sv == PatShape::Invalid {
                (PatShape::Invalid, d2, f2)
            } else {
                (PatShape::Rest(Box::new(sv)), d2, f2)
            }
        },
        Pat::Invalid => (PatShape::Invalid, d0, false),
    }
}

/// One array-pattern element rewritten: a hole is kept as a hole.
pub open spec fn rw_opt_pat_model(op: Option<Pat>, other: Set<AbstractId>, d0: Set<AbstractId>) -> (
    Option<PatShape>,
    Set<AbstractId>,
    bool,
)
    decreases op, 3int,
{
    match op {
        Some(p) => {
            let (sv, d2, f2) = rw_pat_model(p, other, d0);
            (Some(sv), d2, f2)
        },
        None => (None, d0, false),
    }
}

/// The first `n` array-pattern elements rewritten left to right, the
/// persistent set threaded through; not yet filtered.
pub open spec fn rw_opt_pats_model(
    v: Vec<Option<Pat>>,
    n: int,
    other: Set<AbstractId>,
    d0: Set<AbstractId>,
) -> (Seq<Option<PatShape>>, Set<AbstractId>, bool)
    decreases v, n,
{
    if n <= 0 || n > v@.len() {
        (Seq::empty(), d0, false)
    } else {
        let (pre_s, d1, f1) = rw_opt_pats_model(v, n - 1, other, d0);
        let (e2, d2, f2) = rw_opt_pat_model(v@[n - 1], other, d1);
        (pre_s.push(e2), d2, f1 || f2)
    }
}

/// One object-pattern sub-pattern rewritten and filtered: a key-value or
/// rest sub-pattern whose pattern reduced to the placeholder is dropped; a
/// shorthand key that is removable is dropped after its default value is
/// seeded into the persistent set; everything else is kept rewritten.
pub open spec fn rw_pat_prop_model(e: ObjPatProp, other: Set<AbstractId>, d0: Set<AbstractId>) -> (
    Option<PatPropShape>,
    Set<AbstractId>,
    bool,
)
    decreases e, 3int,
{
    match e {
        ObjPatProp::KeyValue(sub) => {
            let (sv, d2, f2) = rw_pat_model(*sub, other, d0);
            if sv == PatShape::Invalid {
                (None, d2, f2)
            } else {
                (Some(PatPropShape::KeyValue(Box::new(sv))), d2, f2)
            }
        },
        ObjPatProp::Assign(key, dflt) => if shape_removable(other, d0, key@) {
            (None, d0 + opt_expr_ids(dflt, true), true)
        } else {
            (Some(PatPropShape::Assign(key@, dflt)), d0, false)
        },
        ObjPatProp::Rest(sub) => {
            let (sv, d2, f2) = rw_pat_model(*sub, other, d0);
            if sv == PatShape::Invalid {
                (None, d2, f2)
            } else {
                (Some(PatPropShape::Rest(Box::new(sv))), d2, f2)
            }
        },
    }
}

/// The first `n` object-pattern sub-patterns rewritten and filtered, left
/// to right, the persistent set threaded through.
pub open spec fn rw_pat_props_model(
    v: Vec<ObjPatProp>,
    n: int,
    other: Set<AbstractId>,
    d0: Set<AbstractId>,
) -> (Seq<PatPropShape>, Set<AbstractId>, bool)
    decreases v, n,
{
    if n <= 0 || n > v@.len() {
        (Seq::empty(), d0, false)
    } else {
        let (pre_s, d1, f1) = rw_pat_props_model(v, n - 1, other, d0);
        let (e2, d2, f2) = rw_pat_prop_model(v@[n - 1], other, d1);
        match e2 {
            Some(kept) => (pre_s.push(kept), d2, f1 || f2),
            None => (pre_s, d2, f1 || f2),
        }
    }
}

/// One declarator rewritten: its name pattern is pruned; when the name
/// reduced to the placeholder, the initializer's identifier uses are seeded
/// into the persistent set and the deletion is flagged. The initializer is
/// kept verbatim.
pub open spec fn rw_declarator_model(
    d: VarDeclarator,
    other: Set<AbstractId>,
    d0: Set<AbstractId>,
) -> (DeclaratorShape, Set<AbstractId>, bool)
    decreases d, 3int,
{
    let (nv, d1, f1) = rw_pat_model(d.name, other, d0);
    if nv == PatShape::Invalid {
        (DeclaratorShape { name: nv, init: d.init }, d1 + opt_expr_ids(d.init, true), true)
    } else {
        (DeclaratorShape { name: nv, init: d.init }, d1, f1)
    }
}

/// The first `n` declarators rewritten left to right, every declarator
/// whose name reduced to the placeholder dropped, survivors in order.
pub open spec fn rw_declarators_model(
    v: Vec<VarDeclarator>,
    n: int,
    other: Set<AbstractId>,
    d0: Set<AbstractId>,
) -> (Seq<DeclaratorShape>, Set<AbstractId>, bool)
    decreases v, n,
{
    if n <= 0 || n > v@.len() {
        (Seq::empty(), d0, false)
    } else {
        let (pre_s, d1, f1) = rw_declarators_model(v, n - 1, other, d0);
        let (dv, d2, f2) = rw_declarator_model(v@[n - 1], other, d1);
        if dv.name == PatShape::Invalid {
            (pre_s, d2, f1 || f2)
        } else {
            (pre_s.push(dv), d2, f1 || f2)
        }
    }
}

/// A prefix's shape sequence has the prefix's length.
pub proof fn lemma_opt_pats_shape_len(v: Vec<Option<Pat>>, n: int)
    requires
        0 <= n <= v@.len(),
    ensures
        opt_pats_shape(v, n).len() == n,
    decreases n,
{
    if n > 0 {
        lemma_opt_pats_shape_len(v, n - 1);
    }
}

/// A prefix's shape sequence has the prefix's length.
pub proof fn lemma_pat_props_shape_len(v: Vec<ObjPatProp>, n: int)
    requires
        0 <= n <= v@.len(),
    ensures
        pat_props_shape(v, n).len() == n,
    decreases n,
{
    if n > 0 {
        lemma_pat_props_shape_len(v, n - 1);
    }
}

/// A prefix's shape sequence has the prefix's length.
pub proof fn lemma_declarators_shape_len(v: Vec<VarDeclarator>, n: int)
    requires
        0 <= n <= v@.len(),
    ensures
        declarators_shape(v, n).len() == n,
    decreases n,
{
    if n > 0 {
        lemma_declarators_shape_len(v, n - 1);
    }
}

/// Equal prefixes have equal shapes.
pub proof fn lemma_opt_pats_shape_prefix(v1: Vec<Option<Pat>>, v2: Vec<Option<Pat>>, n: int)
    requires
        0 <= n <= v1@.len(),
        n <= v2@.len(),
        forall|i: int| 0 <= i < n ==> v1@[i] == v2@[i],
    ensures
        opt_pats_shape(v1, n) == opt_pats_shape(v2, n),
    decreases n,
{
    if n > 0 {
        lemma_opt_pats_shape_prefix(v1, v2, n - 1);
    }
}

/// Equal prefixes have equal shapes.
pub proof fn lemma_pat_props_shape_prefix(v1: Vec<ObjPatProp>, v2: Vec<ObjPatProp>, n: int)
    requires
        0 <= n <= v1@.len(),
        n <= v2@.len(),
        forall|i: int| 0 <= i < n ==> v1@[i] == v2@[i],
    ensures
        pat_props_shape(v1, n) == pat_props_shape(v2, n),
    decreases n,
{
    if n > 0 {
        lemma_pat_props_shape_prefix(v1, v2, n - 1);
    }
}

/// Equal prefixes have equal shapes.
pub proof fn lemma_declarators_shape_prefix(v1: Vec<VarDeclarator>, v2: Vec<VarDeclarator>, n: int)
    requires
        0 <= n <= v1@.len(),
        n <= v2@.len(),
        forall|i: int| 0 <= i < n ==> v1@[i] == v2@[i],
    ensures
        declarators_shape(v1, n) == declarators_shape(v2, n),
    decreases n,
{
    if n > 0 {
        lemma_declarators_shape_prefix(v1, v2, n - 1);
    }
}

/// The shape of one module-scope statement: function declarations and
/// variable declarations by their parts, everything else verbatim.
pub enum StmtShape {
    Fun(Id, Func),
    Var(Seq<DeclaratorShape>),
    Other(Stmt),
}

/// The shape of one module item. The two canonical constructors stand for
/// a default-export slot holding the canonical zero-argument, empty-body
/// anonymous function.
pub enum ItemShape {
    Import(Seq<ImportSpecifier>),
    ExportFun(Id, Func),
    ExportVar(Seq<DeclaratorShape>),
    ExportNamed(Seq<ExportSpecifier>),
    CanonicalDefaultDecl,
    KeptDefaultDecl(DefaultDecl),
    CanonicalDefaultExpr,
    KeptDefaultExpr(Expr),
    Plain(StmtShape),
}

/// The shape of a declaration, as a statement shape.
pub open spec fn decl_stmt_shape(d: Decl) -> StmtShape
    decreases d, 4int,
{
    match d {
        Decl::Fun(n, f) => StmtShape::Fun(n, f),
        Decl::Var(ds) => StmtShape::Var(declarators_shape(ds, ds@.len() as int)),
    }
}

/// The shape of a statement.
pub open spec fn stmt_shape(s: Stmt) -> StmtShape
    decreases s, 5int,
{
    match s {
        Stmt::Decl(d) => decl_stmt_shape(d),
        _ => StmtShape::Other(s),
    }
}

/// The shape of a default-export declaration slot.
pub open spec fn default_decl_shape(dd: DefaultDecl) -> ItemShape
    decreases dd, 4int,
{
    match dd {
        DefaultDecl::Fun(name, f) => if name is None && f.params@ == Seq::<Pat>::empty()
            && f.body@ == Seq::<Stmt>::empty() {
            ItemShape::CanonicalDefaultDecl
        } else {
            ItemShape::KeptDefaultDecl(DefaultDecl::Fun(name, f))
        },
    }
}

/// The shape of a default-export expression slot.
pub open spec fn default_expr_shape(e: Expr) -> ItemShape
    decreases e, 4int,
{
    match e {
        Expr::Fun(name, f) => if name is None && f.params@ == Seq::<Pat>::empty() && f.body@
            == Seq::<Stmt>::empty() {
            ItemShape::CanonicalDefaultExpr
        } else {
            ItemShape::KeptDefaultExpr(Expr::Fun(name, f))
        },
        _ => ItemShape::KeptDefaultExpr(e),
    }
}

/// The shape of an exported declaration, as an item shape.
pub open spec fn exp_decl_shape(d: Decl) -> ItemShape
    decreases d, 4int,
{
    match d {
        Decl::Fun(n, f) => ItemShape::ExportFun(n, f),
        Decl::Var(ds) => ItemShape::ExportVar(declarators_shape(ds, ds@.len() as int)),
    }
}

/// The shape of one module item.
pub open spec fn item_shape(it: ModuleItem) -> ItemShape
    decreases it, 6int,
{
    match it {
        ModuleItem::Import(sp) => ItemShape::Import(sp@),
        ModuleItem::ExportDecl(d) => exp_decl_shape(d),
        ModuleItem::ExportNamed(sp) => ItemShape::ExportNamed(sp@),
        ModuleItem::ExportDefaultDecl(dd) => default_decl_shape(dd),
        ModuleItem::ExportDefaultExpr(e) => default_expr_shape(e),
        ModuleItem::Stmt(s) => ItemShape::Plain(stmt_shape(s)),
    }
}

/// The shapes of the first `n` items.
pub open spec fn items_shape(v: Vec<ModuleItem>, n: int) -> Seq<ItemShape>
    decreases v, n,
{
    if n <= 0 || n > v@.len() {
        Seq::empty()
    } else {
        items_shape(v, n - 1).push(item_shape(v@[n - 1]))
    }
}

/// Equal prefixes have equal shapes.
pub proof fn lemma_items_shape_prefix(v1: Vec<ModuleItem>, v2: Vec<ModuleItem>, n: int)
    requires
        0 <= n <= v1@.len(),
        n <= v2@.len(),
        forall|i: int| 0 <= i < n ==> v1@[i] == v2@[i],
    ensures
        items_shape(v1, n) == items_shape(v2, n),
    decreases n,
{
    if n > 0 {
        lemma_items_shape_prefix(v1, v2, n - 1);
    }
}

/// One module-scope declaration statement rewritten, as the item rules see
/// it: a removable function declaration or an emptied variable declaration
/// is dropped (`None`), with its seeding and flagging exact.
pub open spec fn rw_stmt_decl_model(d: Decl, other: Set<AbstractId>, d0: Set<AbstractId>) -> (
    Option<StmtShape>,
    Set<AbstractId>,
    bool,
)
    decreases d, 4int,
{
    match d {
        Decl::Fun(n, f) => if shape_removable(other, d0, n@) {
            (None, d0 + func_ids(f, true), true)
        } else {
            (Some(StmtShape::Fun(n, f)), d0, false)
        },
        Decl::Var(ds) => {
            let (s, d2, f2) = rw_declarators_model(ds, ds@.len() as int, other, d0);
            if s.len() == 0 {
                (None, d2, f2)
            } else {
                (Some(StmtShape::Var(s)), d2, f2)
            }
        },
    }
}

/// One module-scope statement rewritten; a placeholder statement is
/// dropped by the surrounding item list.
pub open spec fn rw_stmt_model(s: Stmt, other: Set<AbstractId>, d0: Set<AbstractId>) -> (
    Option<StmtShape>,
    Set<AbstractId>,
    bool,
)
    decreases s, 5int,
{
    match s {
        Stmt::Decl(d) => rw_stmt_decl_model(d, other, d0),
        Stmt::Empty => (None, d0, false),
        _ => (Some(StmtShape::Other(s)), d0, false),
    }
}

/// One exported declaration rewritten.
pub open spec fn rw_exp_decl_model(
    d: Decl,
    other: Set<AbstractId>,
    d0: Set<AbstractId>,
    targets: Seq<String>,
) -> (Option<ItemShape>, Set<AbstractId>, bool)
    decreases d, 4int,
{
    match d {
        Decl::Fun(n, f) => if is_target(targets, n.sym@) {
            (None, d0 + func_ids(f, true), true)
        } else {
            (Some(ItemShape::ExportFun(n, f)), d0, false)
        },
        Decl::Var(ds) => {
            let (s, d2, f2) = rw_declarators_model(ds, ds@.len() as int, other, d0);
            if s.len() == 0 {
                (None, d2, f2)
            } else {
                (Some(ItemShape::ExportVar(s)), d2, f2)
            }
        },
    }
}

/// One module item rewritten by the per-node-kind rules: `None` is a
/// deletion the item list filters out.
pub open spec fn rw_item_model(
    it: ModuleItem,
    other: Set<AbstractId>,
    d0: Set<AbstractId>,
    targets: Seq<String>,
) -> (Option<ItemShape>, Set<AbstractId>, bool)
    decreases it, 6int,
{
    match it {
        ModuleItem::Import(sp) => if sp@.len() == 0 {
            (Some(ItemShape::Import(sp@)), d0, false)
        } else {
            let kept = kept_imports(sp, sp@.len() as int, other, d0);
            if kept.len() == 0 {
                (None, d0, true)
            } else {
                (Some(ItemShape::Import(kept)), d0, kept.len() < sp@.len())
            }
        },
        ModuleItem::ExportDecl(d) => rw_exp_decl_model(d, other, d0, targets),
        ModuleItem::ExportNamed(sp) => if sp@.len() == 0 {
            (None, d0, false)
        } else {
            let kept = kept_exports(sp, sp@.len() as int, targets);
            let d2 = d0 + export_seed_ids(sp, sp@.len() as int, targets);
            if kept.len() == 0 {
                (None, d2, true)
            } else {
                (Some(ItemShape::ExportNamed(kept)), d2, kept.len() < sp@.len())
            }
        },
        ModuleItem::ExportDefaultDecl(dd) => if is_target(targets, default_name()) {
            (Some(ItemShape::CanonicalDefaultDecl), d0, false)
        } else {
            (Some(default_decl_shape(dd)), d0, false)
        },
        ModuleItem::ExportDefaultExpr(e) => if is_target(targets, default_name()) {
            (Some(ItemShape::CanonicalDefaultExpr), d0, false)
        } else {
            (Some(default_expr_shape(e)), d0, false)
        },
        ModuleItem::Stmt(s) => {
            let (ss, d2, f2) = rw_stmt_model(s, other, d0);
            match ss {
                Some(sh) => (Some(ItemShape::Plain(sh)), d2, f2),
                None => (None, d2, f2),
            }
        },
    }
}

/// The first `n` module items rewritten left to right, the persistent set
/// threaded through, deletions filtered out, survivors in order.
pub open spec fn rw_items_model(
    v: Vec<ModuleItem>,
    n: int,
    other: Set<AbstractId>,
    d0: Set<AbstractId>,
    targets: Seq<String>,
) -> (Seq<ItemShape>, Set<AbstractId>, bool)
    decreases v, n,
{
    if n <= 0 || n > v@.len() {
        (Seq::empty(), d0, false)
    } else {
        let (pre_s, d1, f1) = rw_items_model(v, n - 1, other, d0, targets);
        let (e2, d2, f2) = rw_item_model(v@[n - 1], other, d1, targets);
        match e2 {
            Some(kept) => (pre_s.push(kept), d2, f1 || f2),
            None => (pre_s, d2, f1 || f2),
        }
    }
}

} // verus!
