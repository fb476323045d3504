//! The values kept in the two tables, and the column types they are made of.

pub mod domains;
pub mod models;
