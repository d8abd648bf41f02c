//! Proof-composition pipeline of a rollup prover.
//!
//! The library threads a proof through the staged composition pipeline
//! (inner circuit, then six layers of compression, aggregation and
//! recursion), persists and resumes proof artifacts through a disk cache,
//! folds batch proofs recursively into a single bundle proof, and binds the
//! raw batch bytes to an on-chain blob commitment through a consistency
//! witness.  Circuits and the proof system itself are external
//! collaborators: the library orchestrates them and pins down, in verified
//! code, every byte-level encoding and every decision the orchestration
//! makes.

pub mod batch_verifier;
pub mod blob;
pub mod cache;
pub mod chunk;
pub mod common_verifier;
pub mod config;
pub mod errors;
pub mod hashing;
pub mod proof_v2;
pub mod proofs;
pub mod recursion;
pub mod snark;
pub mod word;
pub mod zkevm_verifier;
