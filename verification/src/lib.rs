//! An Ethereum execution-layer payload builder with inclusion-list support,
//! modelled over plain values and verified end to end.
//!
//! The builder assembles a candidate block from a parent header, consensus
//! build attributes, a prioritised mempool and an account state: it packs
//! mempool transactions under block-gas and blob-data-gas budgets, retries
//! inclusion-list entries to a fixed point, gates the result on builder
//! revenue, and seals the block. The EVM, the mempool and state storage are
//! collaborators; they appear here as deterministic models over plain values,
//! so that every decision the builder makes is proved.

pub mod block;
pub mod builder;
pub mod chain;
pub mod config;
pub mod digest;
pub mod execute;
pub mod laws;
pub mod noop;
pub mod payload;
pub mod pool;
pub mod state;
pub mod tx;
