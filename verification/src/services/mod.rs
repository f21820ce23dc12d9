//! The backends.

pub mod ipfs;
