//! Transaction-sequencing core of a single-node chain simulator.
//!
//! The sequencer owns the canonical execution state of the ledger: a block
//! execution context fixed at construction, and a key-value state view that
//! holds per-contract storage cells, nonces and class hashes. It derives
//! deterministic contract addresses and fee-balance storage slots, drives the
//! deploy-account transaction lifecycle, and offers a privileged "drip"
//! funding path that writes a balance directly into state so that fee
//! accounting of the subsequent deployment succeeds.
//!
//! The low-level transaction executor and any transport layer are external
//! collaborators: the library prepares and finalizes deployments, while the
//! surrounding application performs the opaque execution step.

pub mod context;
pub mod derivation;
pub mod errors;
pub mod felt;
pub mod sequencer;
pub mod state;
pub mod transaction;
