//! A hash-linked, append-only chain of blocks.
//!
//! Every block stores the SHA-256 digest of its own contents together with
//! the digest of its predecessor, so that any later change to a stored block
//! is found again by recomputing digests along the chain.

pub mod block;
pub mod chain;
pub mod clock;
pub mod encoding;
pub mod hashing;
pub mod laws;
