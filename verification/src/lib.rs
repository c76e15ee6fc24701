//! Verification core of a light client for a Tendermint-style BFT blockchain.
//!
//! The library tracks a chain of signed block headers and validator sets.
//! Given a currently trusted state and a candidate header, it decides, using
//! only hashes, voting-power arithmetic and time, whether the candidate can be
//! trusted now ([`lite::verify::verify_single`]), and it bridges large
//! height gaps by recursive bisection ([`lite::verify::verify_bisection`]).

pub mod error;
pub mod hash;
pub mod lite;
