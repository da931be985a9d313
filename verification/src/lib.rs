//! Sector geometry and parameter catalog of a storage-proof engine.
//!
//! A sector size determines the shape of the Merkle tree that commits to the
//! sector: the arity of its base trees and of the optional sub-tree and
//! top-tree levels above them. This crate derives that shape, keeps the table
//! of shapes registered for the supported sizes, dispatches on a size to run
//! an operation with its registered shape, holds the per-size tunables of the
//! proofs, and looks up parameter artifacts by their versioned names.

pub mod sizes;
pub mod binary_log;
pub mod decimal;
pub mod shape;
pub mod registry;
pub mod params;
pub mod tunables;
