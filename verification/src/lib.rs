//! Client-side core of a proof-of-work token miner: a verified nonce search
//! over a partitioned search space, result selection, transaction building
//! with an explicit compute budget and priority fee, and the decision logic
//! of a retrying submit-and-confirm protocol.

pub mod accounts;
pub mod coordinator;
pub mod digest;
pub mod errors;
pub mod hashcmp;
pub mod search;
pub mod submit;
pub mod txbuild;
