//! SQL membership predicates (`IN` / `NOT IN`).
//!
//! This crate builds and renders the membership predicate of a small SQL
//! query builder.  A predicate pairs a left expression with a right-hand
//! candidate set, which is either a literal collection of expressions or a
//! nested select query.  Rendering emits SQL text together with an ordered
//! list of bound parameters into a caller-supplied pass, chooses the
//! always-true / always-false sentinel for an empty collection, and decides
//! whether the produced text is safe to reuse as a prepared-statement shape.

pub mod array_comparison;
pub mod ast_pass;
pub mod decimal;
pub mod expression;
pub mod sql_types;
pub mod subselect;
