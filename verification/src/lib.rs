//! Wallet sign-in: a server hands an account a challenge text, the account's
//! holder signs it, and the server recovers the signer from the signature and
//! grants a session.
//!
//! The crate holds the rules of that exchange as verified functions on plain
//! values. Storage, the clock and the random source stay with the caller.

pub mod app_state;
pub mod controllers;
pub mod db;
pub mod error;
pub mod hex_codec;
pub mod text;
