//! Deferred queries: expressions, the logical plan and its builder.

pub mod dsl;
pub mod types;
pub mod projection;
pub mod options;
pub mod plan;
pub mod builder;
pub mod checks;
mod name_set;
