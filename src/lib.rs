//! Derives a classification method for error enums: each variant is mapped to
//! a value of a separate "kind" enum, either literally or by asking a wrapped
//! inner error for its own kind.
pub mod decl;
pub mod plan;
pub mod method;
pub mod eval;
pub mod laws;
