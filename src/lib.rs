//! Gossip validation and aggregation for a beacon node: folding single-validator
//! attestations into committee aggregates, checking blob sidecars received over
//! gossip, tracking when a block's data is available, and checking a block's
//! blobs against its commitments and transactions.
//!
//! Around that core stand the small records and checks the node's other parts
//! share: chain constants, genesis validity, hash tree roots of fixed-size
//! records, the block-and-blobs gossip container, and the HTTP interface's
//! request checks.

pub mod primitives;
pub mod attestation;
pub mod state;
pub mod aggregator;
pub mod blob;
pub mod hashing;
pub mod records;
pub mod availability;
pub mod kzg;
pub mod config;
pub mod engine;
pub mod api;
pub mod explorer;
pub mod genesis;
pub mod subnet;
pub mod ssz;
