//! Composing parameterized SQL.

pub mod placeholder;
pub mod where_builder;
