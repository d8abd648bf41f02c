//! Verifier for chunk proofs.

use vstd::prelude::*;
use crate::common_verifier;
use crate::errors::{ChunkProverError, ProverError};

verus! {

/// Verifier capable of verifying a chunk proof.
pub struct Verifier {
    /// The common stage verifier this one wraps.
    pub inner: common_verifier::Verifier,
}

impl From<common_verifier::Verifier> for Verifier {
    fn from(inner: common_verifier::Verifier) -> (r: Self) {
        Verifier { inner }
    }
}

impl vstd::std_specs::convert::FromSpecImpl<common_verifier::Verifier> for Verifier {
    open spec fn obeys_from_spec() -> bool {
        true
    }

    open spec fn from_spec(inner: common_verifier::Verifier) -> Self {
        Verifier { inner }
    }
}

impl Verifier {
    /// Construct a new verifier from the stage's verifying key and degree.
    pub fn new(vk: Vec<u8>, degree: u32) -> (r: Verifier)
        ensures
            r.inner.vk@ == vk@,
            r.inner.degree == degree,
    {
        Verifier { inner: common_verifier::Verifier::new(vk, degree) }
    }

    /// Decide a chunk proof's verification: the artifact is first rebuilt
    /// from its envelope, the proof system checks it externally, and its
    /// acceptance is mapped here.  Rejection is the one outcome expected
    /// against adversarial input; it is reported, never a crash.
    pub fn verify_chunk_proof(&self, accepted: bool) -> (r: Result<(), ProverError>)
        ensures
            r is Ok <==> accepted,
            r matches Err(e) ==> e matches ProverError::ChunkProverError(
                ChunkProverError::Verification,
            ),
    {
        if accepted {
            Ok(())
        } else {
            Err(ProverError::ChunkProverError(ChunkProverError::Verification))
        }
    }
}

} // verus!
