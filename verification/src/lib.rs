//! A two-stage Bitcoin vault built from CHECKTEMPLATEVERIFY (CTV) covenants
//! inside Taproot script trees.
//!
//! A vault address locks funds so that the only permitted spend is a
//! template-committed transaction to an "unvault" address; the unvault address
//! offers an immediate CTV-committed sweep to cold storage and a
//! relative-timelocked, signature-gated spend to a hot wallet.
//!
//! The crate covers the construction engine: the CTV commitment hash, the two
//! leaf script templates, Taproot tree assembly with per-leaf control blocks,
//! the transaction templates for each spend path, and the Schnorr signature
//! for the hot path. Talking to a Bitcoin node (funding, broadcasting,
//! mining) is left to the calling program.

use vstd::prelude::*;

pub mod encoding;
pub mod hashing;
pub mod commitment;
pub mod script;
pub mod tree;
pub mod vault;
pub mod assemble;
pub mod sign;
pub mod lifecycle;

verus! {

/// Errors raised while constructing trees, templates, or signatures.
#[derive(Clone, Copy, Debug, PartialEq, Eq)]
pub enum VaultError {
    /// The leaves handed to the tree builder do not form a valid tree.
    TreeConstruction,
    /// A control block was requested for a leaf that is not in the tree.
    LeafNotFound,
    /// The output set of a CTV spend differs from the committed one.
    CommitmentMismatch,
    /// The tree holds no CTV leaf at all, so no CTV spend can be built.
    NoMatchingLeaf,
    /// The input index is out of range or previous-output data is incomplete.
    SighashComputation,
    /// The signing key is not a valid secp256k1 secret key.
    InvalidSigningKey,
}

} // verus!
