//! Column types with a textual form of their own.

pub mod eth_address;
pub mod uint256;
