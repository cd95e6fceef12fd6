//! Compilation and execution engine of a small, statically checked
//! expression language over structured event records.
//!
//! Every expression is compiled once into a tree of nodes. Each node reports
//! the kinds of value it may produce and whether it may fail, and resolves to
//! a value against the state of one event.

pub mod expression;
pub mod function;
pub mod kind;
pub mod named;
pub mod program;
pub mod seahash;
pub mod type_def;
pub mod value;
