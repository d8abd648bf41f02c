//! Verifier for batch proofs and EVM-verifiable bundle proofs.

use vstd::prelude::*;
use crate::common_verifier;
use crate::errors::{BatchProverError, ProverError};
use crate::proof_v2::BundleProofV2;

verus! {

/// Verifier capable of verifying both batch proofs and bundle proofs.
pub struct Verifier {
    /// The common stage verifier this one wraps.
    pub inner: common_verifier::Verifier,
    /// The deployment code of the on-chain verifier contract.  Absent in
    /// development environments, where it is generated on the fly.
    pub deployment_code: Option<Vec<u8>>,
}

impl Verifier {
    /// Construct a new batch verifier with the verifier contract's
    /// deployment code at hand.
    pub fn new(vk: Vec<u8>, degree: u32, deployment_code: Vec<u8>) -> (r: Verifier)
        ensures
            r.inner.vk@ == vk@,
            r.inner.degree == degree,
            r.deployment_code matches Some(c) && c@ == deployment_code@,
    {
        Verifier {
            inner: common_verifier::Verifier::new(vk, degree),
            deployment_code: Some(deployment_code),
        }
    }

    /// Decide a batch proof's verification: the artifact is rebuilt from
    /// its envelope, the proof system checks it externally, and its
    /// acceptance is mapped here.  Rejection is reported, never a crash.
    pub fn verify_batch_proof(&self, accepted: bool) -> (r: Result<(), ProverError>)
        ensures
            r is Ok <==> accepted,
            r matches Err(e) ==> e matches ProverError::BatchProverError(
                BatchProverError::Verification,
            ),
    {
        if accepted {
            Ok(())
        } else {
            Err(ProverError::BatchProverError(BatchProverError::Verification))
        }
    }

    /// Prepare the on-chain verification of a bundle proof: the contract's
    /// deployment code together with the calldata to call it with.
    ///
    /// Missing deployment code is its own condition, distinguished from a
    /// proof that fails verification.
    pub fn verify_bundle_request(&self, bundle_proof: &BundleProofV2) -> (r: Result<
        (Vec<u8>, Vec<u8>),
        ProverError,
    >)
        ensures
            r is Ok <==> self.deployment_code is Some,
            r matches Ok(p) ==> p.0@ == self.deployment_code->0@ && p.1@
                == bundle_proof.instances@ + bundle_proof.proof@,
            r matches Err(e) ==> e matches ProverError::BatchProverError(
                BatchProverError::VerifierCodeMissing,
            ),
    {
        match &self.deployment_code {
            Some(code) => Ok((code.clone(), bundle_proof.calldata())),
            None => Err(ProverError::BatchProverError(BatchProverError::VerifierCodeMissing)),
        }
    }

    /// Decide the outcome of the on-chain verification call: a contract
    /// execution that succeeded verifies the proof; a revert or halt is a
    /// verification failure carrying the executor's message.
    pub fn verify_bundle_outcome(&self, outcome: Result<u64, String>) -> (r: Result<
        (),
        ProverError,
    >)
        ensures
            r is Ok <==> outcome is Ok,
            r matches Err(e) ==> (e matches ProverError::BatchProverError(
                BatchProverError::Custom(msg),
            ) && msg@ == outcome->Err_0@),
    {
        match outcome {
            Ok(_) => Ok(()),
            Err(msg) => Err(ProverError::BatchProverError(BatchProverError::Custom(msg))),
        }
    }
}

} // verus!
