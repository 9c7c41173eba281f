//! Typed columnar data model and lazy logical-plan construction.
//!
//! The crate describes column data types and schemas, dynamically typed
//! scalar values, and an operator tree for deferred queries whose output
//! schema is derived when each node is built.

pub mod chunked_array;
pub mod convert;
pub mod datatypes;
pub mod error;
pub mod io;
pub mod lazy;
pub mod series;
mod text;
