//! What the store holds.

pub mod postgres;
