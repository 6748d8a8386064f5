//! Resolution of token ids to display metadata for a fractal NFT collection.
//!
//! Fixed-point quantities are held as integers in units of 10^-18, so the
//! on-chain encoding and decoding are exact.
pub mod evm;
pub mod display;
pub mod cache;
pub mod resolver;
pub mod laws;
