//! A small proof-of-work ledger: blocks linked by SHA-256 digests, mined by
//! nonce search against a leading-zero difficulty target.

pub mod render;
pub mod digest;
mod clock;
pub mod block;
pub mod chain;
