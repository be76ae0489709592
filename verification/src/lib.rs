//! Archival and pruning core for an Ethereum-family node.
//!
//! Two cooperating services share the work: a static-file service that
//! appends finalized block data to append-only segment files, and a pruner
//! that walks an ordered set of prune segments on a block-interval cadence,
//! deleting stale history under a global delete budget and a soft deadline.

pub mod args;
pub mod builder;
pub mod clock;
pub mod events;
pub mod execute;
pub mod hardfork;
pub mod jar;
pub mod limiter;
pub mod provider;
pub mod prune_types;
pub mod pruner;
pub mod segments;
pub mod service;
pub mod sorted;
pub mod static_files;
