//! The module-shaped syntax tree the transform operates on.
//!
//! The tree carries exactly what the reachability analysis and the pruning
//! rules read: binding identities, the nesting of expressions, statements and
//! patterns, and the export/import structure of the module. Every binding
//! identifier is an [`crate::ids::Id`] produced by the upstream resolver.
//! `Pat::Invalid` is the placeholder a deleted pattern leaves behind until
//! container-level cleanup removes it, and `Stmt::Empty` plays the same role
//! for statements and module items.

use vstd::prelude::*;
use crate::ids::Id;

verus! {

/// A member-style tag reference, as written at the head of an element
/// literal: either a plain identifier or a property chain whose leftmost
/// part is the identifier that the reference actually uses.
#[derive(Debug, PartialEq, Eq)]
pub enum ElemTag {
    Ident(Id),
    Member(Box<ElemTag>),
}

/// One property of an object literal. Only shorthand properties use a
/// binding identity; for the rest the value expression is what matters.
#[derive(Debug, PartialEq, Eq)]
pub enum ObjProp {
    Shorthand(Id),
    KeyValue(Box<Expr>),
}

/// An expression. Property names of member accesses carry no identity: a
/// chained access uses only its leftmost root object.
#[derive(Debug, PartialEq, Eq)]
pub enum Expr {
    Ident(Id),
    Lit,
    Member(Box<Expr>),
    Call(Box<Expr>, Vec<Expr>),
    Fun(Option<Id>, Func),
    Object(Vec<ObjProp>),
    Elem(ElemTag, Vec<Expr>),
}

/// A function: parameter patterns and a body of statements.
#[derive(Debug, PartialEq, Eq)]
pub struct Func {
    pub params: Vec<Pat>,
    pub body: Vec<Stmt>,
}

/// A binding pattern. `Invalid` is the placeholder for a deleted pattern.
#[derive(Debug, PartialEq, Eq)]
pub enum Pat {
    Ident(Id),
    Array(Vec<Option<Pat>>),
    Object(Vec<ObjPatProp>),
    Rest(Box<Pat>),
    Invalid,
}

/// One sub-pattern of an object destructuring pattern.
#[derive(Debug, PartialEq, Eq)]
pub enum ObjPatProp {
    /// `{ key: subpattern }` — the key carries no identity.
    KeyValue(Box<Pat>),
    /// `{ key }` or `{ key = default }` — the key is the bound identity.
    Assign(Id, Option<Box<Expr>>),
    /// `{ ...rest }`.
    Rest(Box<Pat>),
}

/// One declarator of a variable declaration.
#[derive(Debug, PartialEq, Eq)]
pub struct VarDeclarator {
    pub name: Pat,
    pub init: Option<Box<Expr>>,
}

/// A declaration: a named function or a variable declaration.
#[derive(Debug, PartialEq, Eq)]
pub enum Decl {
    Fun(Id, Func),
    Var(Vec<VarDeclarator>),
}

/// A statement. `Empty` is the placeholder for a deleted statement.
#[derive(Debug, PartialEq, Eq)]
pub enum Stmt {
    Decl(Decl),
    Expr(Expr),
    Ret(Option<Expr>),
    Empty,
}

/// One import specifier; each binds one local identity.
#[derive(Debug, PartialEq, Eq)]
pub enum ImportSpecifier {
    Named(Id),
    Default(Id),
    Namespace(Id),
}

/// One specifier of a named export.
#[derive(Debug, PartialEq, Eq)]
pub enum ExportSpecifier {
    /// `export { orig }` or `export { orig as alias }`.
    Named(Id, Option<String>),
    /// `export * as name` — an exported name without a local identity.
    Namespace(String),
    /// `export name` in a default-style specifier position.
    Default(String),
}

/// The declaration of a default export: a function, optionally named.
#[derive(Debug, PartialEq, Eq)]
pub enum DefaultDecl {
    Fun(Option<Id>, Func),
}

/// One item of a module body.
#[derive(Debug, PartialEq, Eq)]
pub enum ModuleItem {
    /// An import; an empty specifier list is a pure side-effect import.
    Import(Vec<ImportSpecifier>),
    /// `export function f ...` or `export const ...`.
    ExportDecl(Decl),
    /// `export { ... }`.
    ExportNamed(Vec<ExportSpecifier>),
    /// `export default function ...`.
    ExportDefaultDecl(DefaultDecl),
    /// `export default <expr>;`.
    ExportDefaultExpr(Expr),
    /// An ordinary statement.
    Stmt(Stmt),
}

/// A module: the list of its items.
#[derive(Debug, PartialEq, Eq)]
pub struct Module {
    pub items: Vec<ModuleItem>,
}

} // verus!
