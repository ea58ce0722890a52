//! A verified builder for fragments of SQL syntax: each value carries the
//! structure of one clause and renders its description exactly as the
//! specification-level text says.

pub mod convert;
pub mod identifiers;
pub mod text;
pub mod types;
