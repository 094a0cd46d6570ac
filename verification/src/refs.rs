//! The reference model of the reachability analyzer.
//!
//! These specification functions say, for every node kind, exactly which
//! binding identities a traversal of that node records. The flag `data`
//! is the removal-marked context: it starts `false` at module entry, turns
//! `true` only when descending into a targeted export's function body,
//! initializer or default-export declaration, and never turns back within
//! that sub-tree. Inside the context, binding identifiers on the left-hand
//! side of a declaration count as uses too; outside it they do not.

use vstd::prelude::*;
use crate::ids::AbstractId;
use crate::ast::{
    Decl, DefaultDecl, ElemTag, Expr, ExportSpecifier, Func, Module, ModuleItem,
    ObjPatProp, ObjProp, Pat, Stmt, VarDeclarator,
};
use crate::state::{default_name, is_target};

verus! {

broadcast use vstd::std_specs::vec::axiom_vec_index_decreases;

/// The leftmost identity of a member-style tag reference: property access
/// implies use of the root object only.
pub open spec fn tag_root(t: ElemTag) -> AbstractId
    decreases t,
{
    match t {
        ElemTag::Ident(id) => id@,
        ElemTag::Member(inner) => tag_root(*inner),
    }
}

/// The identity of an optional function-expression name, which is a use
/// whenever it is present.
pub open spec fn opt_name_ids(name: Option<crate::ids::Id>) -> Set<AbstractId> {
    match name {
        Some(id) => Set::empty().insert(id@),
        None => Set::empty(),
    }
}

/// Identifier uses recorded under an expression.
pub open spec fn expr_ids(e: Expr, data: bool) -> Set<AbstractId>
    decreases e, 0int,
{
    match e {
        Expr::Ident(id) => Set::empty().insert(id@),
        Expr::Lit => Set::empty(),
        Expr::Member(obj) => expr_ids(*obj, data),
        Expr::Call(callee, args) => expr_ids(*callee, data) + exprs_ids(
            args,
            args@.len() as int,
            data,
        ),
        Expr::Fun(name, func) => opt_name_ids(name) + func_ids(func, data),
        Expr::Object(props) => props_ids(props, props@.len() as int, data),
        Expr::Elem(tag, children) => Set::empty().insert(tag_root(tag)) + exprs_ids(
            children,
            children@.len() as int,
            data,
        ),
    }
}

/// Uses recorded under the first `n` expressions of the list.
pub open spec fn exprs_ids(v: Vec<Expr>, n: int, data: bool) -> Set<AbstractId>
    decreases v, n,
{
    if n <= 0 || n > v@.len() {
        Set::empty()
    } else {
        exprs_ids(v, n - 1, data) + expr_ids(v@[n - 1], data)
    }
}

/// Uses recorded under an optional initializer or default-value expression.
pub open spec fn opt_expr_ids(oe: Option<Box<Expr>>, data: bool) -> Set<AbstractId>
    decreases oe, 1int,
{
    match oe {
        Some(e) => expr_ids(*e, data),
        None => Set::empty(),
    }
}

/// Uses recorded under an object-literal property: a shorthand property is
/// itself a use of its identity.
pub open spec fn prop_ids(p: ObjProp, data: bool) -> Set<AbstractId>
    decreases p, 0int,
{
    match p {
        ObjProp::Shorthand(id) => Set::empty().insert(id@),
        ObjProp::KeyValue(e) => expr_ids(*e, data),
    }
}

/// Uses recorded under the first `n` object-literal properties.
pub open spec fn props_ids(v: Vec<ObjProp>, n: int, data: bool) -> Set<AbstractId>
    decreases v, n,
{
    if n <= 0 || n > v@.len() {
        Set::empty()
    } else {
        props_ids(v, n - 1, data) + prop_ids(v@[n - 1], data)
    }
}

/// Uses recorded under a pattern. A binding identifier on the left-hand
/// side of a declaration (`in_lhs`) is a use only inside the removal-marked
/// context.
pub open spec fn pat_ids(p: Pat, data: bool, in_lhs: bool) -> Set<AbstractId>
    decreases p, 0int,
{
    match p {
        Pat::Ident(id) => if !in_lhs || data {
            Set::empty().insert(id@)
        } else {
            Set::empty()
        },
        Pat::Array(elems) => opt_pats_ids(elems, elems@.len() as int, data, in_lhs),
        Pat::Object(props) => pat_props_ids(props, props@.len() as int, data, in_lhs),
        Pat::Rest(inner) => pat_ids(*inner, data, in_lhs),
        Pat::Invalid => Set::empty(),
    }
}

/// Uses recorded under the first `n` patterns of a list.
pub open spec fn pats_ids(v: Vec<Pat>, n: int, data: bool, in_lhs: bool) -> Set<AbstractId>
    decreases v, n,
{
    if n <= 0 || n > v@.len() {
        Set::empty()
    } else {
        pats_ids(v, n - 1, data, in_lhs) + pat_ids(v@[n - 1], data, in_lhs)
    }
}

/// Uses recorded under one element of an array pattern; a hole records
/// nothing.
pub open spec fn opt_pat_ids(op: Option<Pat>, data: bool, in_lhs: bool) -> Set<AbstractId>
    decreases op, 1int,
{
    match op {
        Some(p) => pat_ids(p, data, in_lhs),
        None => Set::empty(),
    }
}

/// Uses recorded under the first `n` elements of an array pattern.
pub open spec fn opt_pats_ids(v: Vec<Option<Pat>>, n: int, data: bool, in_lhs: bool) -> Set<
    AbstractId,
>
    decreases v, n,
{
    if n <= 0 || n > v@.len() {
        Set::empty()
    } else {
        opt_pats_ids(v, n - 1, data, in_lhs) + opt_pat_ids(v@[n - 1], data, in_lhs)
    }
}

/// Uses recorded under one object-pattern sub-pattern. A shorthand key is a
/// binding identifier; its default value is an ordinary expression.
pub open spec fn pat_prop_ids(p: ObjPatProp, data: bool, in_lhs: bool) -> Set<AbstractId>
    decreases p, 0int,
{
    match p {
        ObjPatProp::KeyValue(sub) => pat_ids(*sub, data, in_lhs),
        ObjPatProp::Assign(key, dflt) => (if !in_lhs || data {
            Set::empty().insert(key@)
        } else {
            Set::empty()
        }) + opt_expr_ids(dflt, data),
        ObjPatProp::Rest(sub) => pat_ids(*sub, data, in_lhs),
    }
}

/// Uses recorded under the first `n` object-pattern sub-patterns.
pub open spec fn pat_props_ids(v: Vec<ObjPatProp>, n: int, data: bool, in_lhs: bool) -> Set<
    AbstractId,
>
    decreases v, n,
{
    if n <= 0 || n > v@.len() {
        Set::empty()
    } else {
        pat_props_ids(v, n - 1, data, in_lhs) + pat_prop_ids(v@[n - 1], data, in_lhs)
    }
}

/// Uses recorded under a function: parameters are binding identifiers
/// outside a declarator's left-hand side, then the body statements.
pub open spec fn func_ids(f: Func, data: bool) -> Set<AbstractId>
    decreases f, 1int,
{
    pats_ids(f.params, f.params@.len() as int, data, false) + stmts_ids(
        f.body,
        f.body@.len() as int,
        data,
    )
}

/// Uses recorded under one variable declarator: its name pattern is a
/// declarator left-hand side, its initializer is not.
pub open spec fn declarator_ids(d: VarDeclarator, data: bool) -> Set<AbstractId>
    decreases d, 1int,
{
    pat_ids(d.name, data, true) + opt_expr_ids(d.init, data)
}

/// Uses recorded under the first `n` declarators.
pub open spec fn declarators_ids(v: Vec<VarDeclarator>, n: int, data: bool) -> Set<AbstractId>
    decreases v, n,
{
    if n <= 0 || n > v@.len() {
        Set::empty()
    } else {
        declarators_ids(v, n - 1, data) + declarator_ids(v@[n - 1], data)
    }
}

/// Uses recorded under a declaration. A function declaration's own name is
/// a use only inside the removal-marked context.
pub open spec fn decl_ids(d: Decl, data: bool) -> Set<AbstractId>
    decreases d, 1int,
{
    match d {
        Decl::Fun(name, func) => (if data {
            Set::empty().insert(name@)
        } else {
            Set::empty()
        }) + func_ids(func, data),
        Decl::Var(decls) => declarators_ids(decls, decls@.len() as int, data),
    }
}

/// Uses recorded under a statement.
pub open spec fn stmt_ids(s: Stmt, data: bool) -> Set<AbstractId>
    decreases s, 2int,
{
    match s {
        Stmt::Decl(d) => decl_ids(d, data),
        Stmt::Expr(e) => expr_ids(e, data),
        Stmt::Ret(oe) => match oe {
            Some(e) => expr_ids(e, data),
            None => Set::empty(),
        },
        Stmt::Empty => Set::empty(),
    }
}

/// Uses recorded under the first `n` statements.
pub open spec fn stmts_ids(v: Vec<Stmt>, n: int, data: bool) -> Set<AbstractId>
    decreases v, n,
{
    if n <= 0 || n > v@.len() {
        Set::empty()
    } else {
        stmts_ids(v, n - 1, data) + stmt_ids(v@[n - 1], data)
    }
}

// ---------------------------------------------------------------------------
// Module level: here the removal targets decide where the removal-marked
// context begins, and every identity lands in one of the two reference sets —
// the transient set for uses by surviving code, the persistent set for uses
// inside removal-marked sub-trees.
// ---------------------------------------------------------------------------

/// The shorthand keys among the first `n` top-level sub-patterns of an
/// exported object pattern whose symbol names a removal target.
pub open spec fn assign_target_ids(v: Vec<ObjPatProp>, n: int, targets: Seq<String>) -> Set<
    AbstractId,
>
    decreases v, n,
{
    if n <= 0 || n > v@.len() {
        Set::empty()
    } else {
        assign_target_ids(v, n - 1, targets) + match v@[n - 1] {
            ObjPatProp::Assign(key, _) => if is_target(targets, key.sym@) {
                Set::empty().insert(key@)
            } else {
                Set::empty()
            },
            _ => Set::empty(),
        }
    }
}

/// Whether an exported declarator is wholly removal-marked: its name is a
/// plain identifier that names a removal target.
pub open spec fn exp_declarator_marked(d: VarDeclarator, targets: Seq<String>) -> bool {
    match d.name {
        Pat::Ident(id) => is_target(targets, id.sym@),
        _ => false,
    }
}

/// Persistent-set contribution of one exported declarator: a marked
/// declarator contributes everything under it; an exported destructuring
/// pattern contributes its targeted shorthand keys, so their sub-patterns
/// can be reconsidered by the rewriter.
pub open spec fn exp_declarator_data_ids(d: VarDeclarator, targets: Seq<String>) -> Set<AbstractId>
    decreases d,
{
    if exp_declarator_marked(d, targets) {
        declarator_ids(d, true)
    } else {
        match d.name {
            Pat::Object(props) => assign_target_ids(props, props@.len() as int, targets),
            _ => Set::empty(),
        }
    }
}

/// Transient-set contribution of one exported declarator.
pub open spec fn exp_declarator_other_ids(d: VarDeclarator, targets: Seq<String>) -> Set<
    AbstractId,
> {
    if exp_declarator_marked(d, targets) {
        Set::empty()
    } else {
        declarator_ids(d, false)
    }
}

/// Persistent-set contribution of the first `n` exported declarators.
pub open spec fn exp_declarators_data_ids(v: Vec<VarDeclarator>, n: int, targets: Seq<String>) -> Set<AbstractId>
    decreases v, n,
{
    if n <= 0 || n > v@.len() {
        Set::empty()
    } else {
        exp_declarators_data_ids(v, n - 1, targets) + exp_declarator_data_ids(v@[n - 1], targets)
    }
}

/// Transient-set contribution of the first `n` exported declarators.
pub open spec fn exp_declarators_other_ids(v: Vec<VarDeclarator>, n: int, targets: Seq<String>) -> Set<AbstractId>
    decreases v, n,
{
    if n <= 0 || n > v@.len() {
        Set::empty()
    } else {
        exp_declarators_other_ids(v, n - 1, targets) + exp_declarator_other_ids(v@[n - 1], targets)
    }
}

/// The name a named-export specifier exports under: its alias when it has
/// one, otherwise its original symbol.
pub open spec fn exported_name(s: ExportSpecifier) -> Seq<char> {
    match s {
        ExportSpecifier::Named(orig, exported) => match exported {
            Some(alias) => alias@,
            None => orig.sym@,
        },
        ExportSpecifier::Namespace(name) => name@,
        ExportSpecifier::Default(name) => name@,
    }
}

/// Transient-set contribution of one named-export specifier: the original
/// identity is a use unless the specifier exports under a targeted name, so
/// re-exporting under a doomed name does not keep the symbol alive.
pub open spec fn export_spec_other_ids(s: ExportSpecifier, targets: Seq<String>) -> Set<
    AbstractId,
> {
    match s {
        ExportSpecifier::Named(orig, _) => if is_target(targets, exported_name(s)) {
            Set::empty()
        } else {
            Set::empty().insert(orig@)
        },
        _ => Set::empty(),
    }
}

/// Transient-set contribution of the first `n` named-export specifiers.
pub open spec fn export_specs_other_ids(v: Vec<ExportSpecifier>, n: int, targets: Seq<String>) -> Set<AbstractId>
    decreases v, n,
{
    if n <= 0 || n > v@.len() {
        Set::empty()
    } else {
        export_specs_other_ids(v, n - 1, targets) + export_spec_other_ids(v@[n - 1], targets)
    }
}

/// Transient-set contribution of one module item.
pub open spec fn item_other_ids(item: ModuleItem, targets: Seq<String>) -> Set<AbstractId>
    decreases item,
{
    match item {
        ModuleItem::Import(_) => Set::empty(),
        ModuleItem::ExportDecl(d) => match d {
            Decl::Fun(name, func) => if is_target(targets, name.sym@) {
                Set::empty()
            } else {
                func_ids(func, false)
            },
            Decl::Var(decls) => exp_declarators_other_ids(decls, decls@.len() as int, targets),
        },
        ModuleItem::ExportNamed(specs) => export_specs_other_ids(
            specs,
            specs@.len() as int,
            targets,
        ),
        ModuleItem::ExportDefaultDecl(dd) => match dd {
            DefaultDecl::Fun(name, func) => if is_target(targets, default_name()) {
                Set::empty()
            } else {
                opt_name_ids(name) + func_ids(func, false)
            },
        },
        ModuleItem::ExportDefaultExpr(e) => if is_target(targets, default_name()) {
            Set::empty()
        } else {
            expr_ids(e, false)
        },
        ModuleItem::Stmt(s) => stmt_ids(s, false),
    }
}

/// Persistent-set contribution of one module item.
pub open spec fn item_data_ids(item: ModuleItem, targets: Seq<String>) -> Set<AbstractId>
    decreases item,
{
    match item {
        ModuleItem::Import(_) => Set::empty(),
        ModuleItem::ExportDecl(d) => match d {
            Decl::Fun(name, func) => if is_target(targets, name.sym@) {
                Set::empty().insert(name@) + func_ids(func, true)
            } else {
                Set::empty()
            },
            Decl::Var(decls) => exp_declarators_data_ids(decls, decls@.len() as int, targets),
        },
        ModuleItem::ExportNamed(_) => Set::empty(),
        ModuleItem::ExportDefaultDecl(dd) => match dd {
            DefaultDecl::Fun(name, func) => if is_target(targets, default_name()) {
                opt_name_ids(name) + func_ids(func, true)
            } else {
                Set::empty()
            },
        },
        ModuleItem::ExportDefaultExpr(e) => if is_target(targets, default_name()) {
            expr_ids(e, true)
        } else {
            Set::empty()
        },
        ModuleItem::Stmt(_) => Set::empty(),
    }
}

/// Transient-set contribution of the first `n` module items.
pub open spec fn items_other_ids(v: Vec<ModuleItem>, n: int, targets: Seq<String>) -> Set<
    AbstractId,
>
    decreases v, n,
{
    if n <= 0 || n > v@.len() {
        Set::empty()
    } else {
        items_other_ids(v, n - 1, targets) + item_other_ids(v@[n - 1], targets)
    }
}

/// Persistent-set contribution of the first `n` module items.
pub open spec fn items_data_ids(v: Vec<ModuleItem>, n: int, targets: Seq<String>) -> Set<
    AbstractId,
>
    decreases v, n,
{
    if n <= 0 || n > v@.len() {
        Set::empty()
    } else {
        items_data_ids(v, n - 1, targets) + item_data_ids(v@[n - 1], targets)
    }
}

/// Everything one analyzer pass records into the transient set.
pub open spec fn module_other_ids(m: Module, targets: Seq<String>) -> Set<AbstractId> {
    items_other_ids(m.items, m.items@.len() as int, targets)
}

/// Everything one analyzer pass records into the persistent set.
pub open spec fn module_data_ids(m: Module, targets: Seq<String>) -> Set<AbstractId> {
    items_data_ids(m.items, m.items@.len() as int, targets)
}

} // verus!
