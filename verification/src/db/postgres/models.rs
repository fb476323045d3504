//! The rows of the two tables, and what the store may answer.

use vstd::prelude::*;

pub mod auth_challenges_model;
pub mod auth_sessions_model;

verus! {

/// Why the store did not take a row.
#[derive(Clone, Copy, Debug, PartialEq, Eq, Structural)]
pub enum StoreError {
    /// A row with the same key is there already.
    Conflict,
    /// Anything else.
    Other,
}

/// Why the store did not hand out a row.
#[derive(Clone, Copy, Debug, PartialEq, Eq, Structural)]
pub enum LookupError {
    /// There is no such row.
    NotFound,
    /// Anything else.
    Other,
}

} // verus!
