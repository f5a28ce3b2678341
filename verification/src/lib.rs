//! A single static-analysis rule: flag a function parameter that is
//! "redefined" inside the function body as a new mutable local variable whose
//! initializer is nothing more than a read of that same parameter.
//!
//! The crate is organised leaf-first:
//! - [`ast`] holds the structural model of a function that the rule inspects;
//! - [`finding`] holds the diagnostic record the rule produces;
//! - [`matcher`] decides whether one statement is a trivial mutable
//!   redefinition of some parameter;
//! - [`walker`] scans a function's top-level statement list and synthesises
//!   one finding per matching statement.

pub mod ast;
pub mod finding;
pub mod matcher;
pub mod walker;
