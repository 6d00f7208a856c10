//! Semantic analysis for a statically typed, Lua-like scripting language.
//!
//! - `span`, `types`, `exprs`: the syntax tree's nodes and the source range
//!   each one covers.
//! - `ty`: the resolved meaning of a type annotation, the compatibility rule
//!   between types, and how types are described in diagnostics.
//! - `hir`: the bound representation that binding and analysis walk.
//! - `binder`: records every declaration and resolves every name use against
//!   the scope chain, innermost first.
//! - `analyzer`: infers and checks types over the bound representation. It
//!   stops at the first diagnostic, which it returns.
//! - `error`: the diagnostics.
use vstd::prelude::*;

verus! {

pub mod span;
pub mod types;
pub mod exprs;
pub mod ty;
pub mod error;
pub mod hir;
pub mod analyzer;
pub mod binder;

} // verus!
