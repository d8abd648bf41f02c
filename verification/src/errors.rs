//! Typed errors of the proof generation pipeline.
//!
//! Every fallible operation reports which stage and which artifact was
//! involved; outside failures (i/o, serialization) are carried as the
//! offending path or key together with the underlying message.

use vstd::prelude::*;
use crate::config::LayerId;

verus! {

/// Errors of the chunk proving pipeline.
#[derive(Debug)]
pub enum ChunkProverError {
    /// An externally supplied chunk proof failed verification.
    Verification,
    /// Any other error.
    Custom(String),
}

/// Errors of the batch and bundle proving pipeline.
#[derive(Debug)]
pub enum BatchProverError {
    /// A freshly computed verifying key disagrees with the trusted one for
    /// a layer: environment or version drift, never retried.
    VerifyingKeyMismatch(LayerId, String, String),
    /// The expected verifying key is absent from the asset store.
    VerifyingKeyNotFound(LayerId, String),
    /// A proof artifact's structural protocol did not match the expected
    /// one: a wrong or stale proof was fed in.
    ChunkProtocolMismatch(usize, String, String),
    /// A freshly generated proof did not pass its own freshly deployed
    /// verifier contract: a build-time sanity check failure.
    SanityEVMVerifier,
    /// An externally supplied batch proof failed verification.
    Verification,
    /// The verifier contract's deployment code is not available.
    VerifierCodeMissing,
    /// The reconstructed proof's instance byte length disagrees with the
    /// statically expected length: expected, then found.
    PublicInputsMismatch(usize, usize),
    /// Any other error.
    Custom(String),
}

impl From<String> for BatchProverError {
    fn from(value: String) -> (r: Self) {
        BatchProverError::Custom(value)
    }
}

impl vstd::std_specs::convert::FromSpecImpl<String> for BatchProverError {
    open spec fn obeys_from_spec() -> bool {
        true
    }

    open spec fn from_spec(value: String) -> Self {
        BatchProverError::Custom(value)
    }
}

/// Errors possibly encountered during proof generation.
#[derive(Debug)]
pub enum ProverError {
    /// Failure while reading from or writing to a file: the path involved
    /// and the underlying message.
    IoReadWrite { path: String, msg: String },
    /// Failure while serializing or deserializing a file: the path
    /// involved and the underlying message.
    JsonReadWrite { path: String, msg: String },
    /// Failure while reading a process environment variable.
    EnvVar { key: String, msg: String },
    /// Error propagated from the chunk proving pipeline.
    ChunkProverError(ChunkProverError),
    /// Error propagated from the batch proving pipeline.
    BatchProverError(BatchProverError),
    /// Any other error.
    Custom(String),
}

impl From<ChunkProverError> for ProverError {
    fn from(value: ChunkProverError) -> (r: Self) {
        ProverError::ChunkProverError(value)
    }
}

impl vstd::std_specs::convert::FromSpecImpl<ChunkProverError> for ProverError {
    open spec fn obeys_from_spec() -> bool {
        true
    }

    open spec fn from_spec(value: ChunkProverError) -> Self {
        ProverError::ChunkProverError(value)
    }
}

impl From<BatchProverError> for ProverError {
    fn from(value: BatchProverError) -> (r: Self) {
        ProverError::BatchProverError(value)
    }
}

impl vstd::std_specs::convert::FromSpecImpl<BatchProverError> for ProverError {
    open spec fn obeys_from_spec() -> bool {
        true
    }

    open spec fn from_spec(value: BatchProverError) -> Self {
        ProverError::BatchProverError(value)
    }
}

} // verus!
