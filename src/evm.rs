//! What the collection's contract stores, and its ABI encoding.
pub mod types;
