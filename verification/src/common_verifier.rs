//! The stage verifier shared by all layers: a verifying key (held raw)
//! against which the proof system checks an artifact.
//!
//! The proof system's verification routine and the generation of the EVM
//! verifier contract are external; this module pins down the decisions
//! made over their outcomes.

use vstd::prelude::*;
use crate::errors::{BatchProverError, ProverError};

verus! {

/// A verifier for one pipeline stage: the raw bytes of the stage's
/// verifying key, against the parameter set of the stage's degree.
pub struct Verifier {
    pub vk: Vec<u8>,
    pub degree: u32,
}

impl Verifier {
    /// Construct a verifier from the stage's verifying key and degree.
    pub fn new(vk: Vec<u8>, degree: u32) -> (r: Verifier)
        ensures
            r.vk@ == vk@,
            r.degree == degree,
    {
        Verifier { vk, degree }
    }

    /// Decide the outcome of generating an EVM verifier contract: after
    /// the externally generated contract has been run over the freshly
    /// generated proof, accept exactly a passing run.  A failing run is
    /// the build-time sanity-check failure, never silently ignored.
    pub fn gen_evm_verifier(&self, proof_accepted: bool) -> (r: Result<(), ProverError>)
        ensures
            r is Ok <==> proof_accepted,
            r matches Err(e) ==> e matches ProverError::BatchProverError(
                BatchProverError::SanityEVMVerifier,
            ),
    {
        if proof_accepted {
            Ok(())
        } else {
            Err(ProverError::BatchProverError(BatchProverError::SanityEVMVerifier))
        }
    }
}

} // verus!
