//! Rewrites every statement-level compound assignment `target OP= value`
//! in a function body into a block that first binds `value` to a fresh
//! temporary and then performs `target OP= temporary`.
pub mod ident;
pub mod laws;
pub mod rewrite;
pub mod syntax;

pub use rewrite::rhs_first_assign;
