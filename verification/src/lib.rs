//! A name-directed dead-code eliminator for module-shaped syntax trees.
//!
//! Given an ordered list of export names (the removal targets, where the
//! literal name `default` stands for the module's default export), the
//! transform deletes the targeted exports together with every declaration,
//! import, or binding that is referenced exclusively from inside them.
//! It alternates a read-only reachability analyzer with a pruning rewriter
//! until a pass performs no deletion and seeds no new removal candidate.
//!
//! The input module must already carry resolver-assigned unique identities
//! on its bindings: each identifier is a pair of symbol name and scope
//! marker, stable under shadowing.

use vstd::prelude::*;

pub mod ids;
pub mod ast;
pub mod state;
pub mod refs;
pub mod analyze;
pub mod rewrite;
pub mod model;
pub mod driver;

pub use driver::remove_export_exprs;
