//! Runtime support shared by the backend services: a structured error model
//! and a builder for parameterized SQL `WHERE` clauses.

pub mod context;
pub mod error;
pub mod infra;
pub mod sql;
pub mod std_specs;
