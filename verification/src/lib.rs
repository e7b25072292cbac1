//! Overflow-safe simplification support: original column type tracking,
//! simplification context information and integer interval bounds of
//! expressions.

pub mod data_type;
pub mod error;
pub mod column;
pub mod type_tracker;
pub mod scalar;
pub mod schema;
pub mod expr;
pub mod simplify;
pub mod interval;
pub mod interval_laws;
pub mod interval_bound;
