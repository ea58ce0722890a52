//! A multi-handle database lifecycle manager.
//!
//! Many `Database` values may refer to one logical database identified by its
//! canonical path; they share a tag, a blockade flag and an ordered chain of
//! configuration hooks. Connections ("handles") are materialized lazily, the
//! configuration chain runs on every new connection, and closing a database
//! walks a blockade / close / callback / unblockade protocol.
//!
//! The process-wide state of the storage engine is held in an explicit
//! [`database::Core`] value so that every operation on it can be specified
//! and verified; callers that share it between threads wrap it in a lock and
//! pass it to each call.

use vstd::prelude::*;

pub mod database;
pub mod error;
pub mod handle;
pub mod winq;

verus! {

/// Caller-assigned integer identity for a logical database; `0` is reserved
/// to mean "no tag".
pub type Tag = i32;

} // verus!
