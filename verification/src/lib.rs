//! Staking-position queries for the NECO token.
//!
//! The crate holds the decisions of the query: which network a selector names,
//! what is answered when a selector names none, how a failed chain read is
//! settled, and how the answer is shaped. It performs no I/O. A caller drives
//! `handler::get_neco_staked_info` and performs the chain reads that it asks for.

pub mod decimal;
pub mod handler;
pub mod model;
pub mod network;
pub mod response;
pub mod uint256;
