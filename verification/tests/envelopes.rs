//! Proof envelopes: construction, artifact reconstruction, dump plans,
//! and the verifiers' decisions.

use rollup_prover::batch_verifier;
use rollup_prover::chunk::{ChunkInfo, ChunkKind, ChunkProof};
use rollup_prover::common_verifier;
use rollup_prover::errors::{BatchProverError, ChunkProverError, ProverError};
use rollup_prover::proof_v2::{
    path_proof, path_protocol, path_vk, BatchProofV2Metadata, BundleProofV2,
    BundleProofV2Metadata, ChunkProofV2, ChunkProofV2Metadata, ProofV2,
};
use rollup_prover::proofs::{dump_proof_path, EvmProof, InnerProof};
use rollup_prover::snark::{Fr, Snark};
use rollup_prover::zkevm_verifier;

fn fr_from_u64(x: u64) -> Fr {
    let mut bytes = vec![0u8; 32];
    bytes[..8].copy_from_slice(&x.to_le_bytes());
    Fr { bytes }
}

fn sample_snark() -> Snark {
    Snark {
        protocol: vec![0x50, 0x51],
        proof: vec![0xaa, 0xbb, 0xcc],
        instances: vec![vec![fr_from_u64(11), fr_from_u64(22)]],
    }
}

fn sample_chunk_info() -> ChunkInfo {
    ChunkInfo {
        chain_id: 5,
        prev_state_root: vec![1; 32],
        post_state_root: vec![2; 32],
        withdraw_root: vec![3; 32],
        data_hash: vec![4; 32],
        tx_bytes: vec![9, 9],
    }
}

#[test]
fn inner_proof_round_trips_its_instances() {
    let snark = sample_snark();
    let inner = InnerProof::new(
        snark.proof.clone(),
        &snark.instances,
        vec![5, 6],
        String::from("v0"),
    );
    assert_eq!(inner.instances.len(), 64);
    assert_eq!(inner.instances.len() % 32, 0);
    let decoded = inner.instances().expect("canonical instances");
    assert_eq!(decoded.len(), 1);
    assert_eq!(decoded[0].len(), 2);
    assert_eq!(decoded[0][0].bytes, fr_from_u64(11).bytes);
    assert_eq!(inner.proof_bytes(), &vec![0xaa, 0xbb, 0xcc]);
    assert_eq!(inner.raw_vk(), &vec![5, 6]);
    let calldata = inner.verification_calldata();
    assert_eq!(calldata.len(), 64 + 3);
    assert_eq!(&calldata[64..], &[0xaa, 0xbb, 0xcc]);
}

#[test]
fn inner_proof_dump_plan_names_the_files() {
    let inner = InnerProof {
        proof: vec![1],
        instances: vec![0u8; 32],
        vk: vec![2, 3],
        git_version: String::new(),
    };
    let plan = inner.dump("out", "chunk_c7");
    assert_eq!(plan.files.len(), 1);
    assert_eq!(plan.files[0].path, "out/vk_chunk_c7.vkey");
    assert_eq!(plan.files[0].data, vec![2, 3]);
    assert_eq!(plan.envelope_path, "out/full_proof_chunk_c7.json");
    assert_eq!(dump_proof_path("out", "chunk_c7"), "out/full_proof_chunk_c7.json");
}

#[test]
fn chunk_proof_rebuilds_its_artifact() {
    let snark = sample_snark();
    let proof = ChunkProof::new(
        snark.dup(),
        vec![7],
        sample_chunk_info(),
        ChunkKind::Halo2,
        String::from("v0"),
    );
    assert_eq!(proof.protocol, snark.protocol);
    let back = proof.to_snark().expect("instances are canonical");
    assert_eq!(back.protocol, snark.protocol);
    assert_eq!(back.proof, snark.proof);
    assert_eq!(back.instances.len(), 1);
    assert_eq!(back.instances[0][1].bytes, fr_from_u64(22).bytes);
}

#[test]
fn chunk_proof_dump_plan_names_the_files() {
    let snark = sample_snark();
    let proof = ChunkProof::new(
        snark,
        vec![7],
        sample_chunk_info(),
        ChunkKind::Sp1,
        String::from("v0"),
    );
    let plan = proof.dump("out", "c7");
    assert_eq!(plan.files.len(), 2);
    assert_eq!(plan.files[0].path, "out/vk_chunk_c7.vkey");
    assert_eq!(plan.files[1].path, "out/chunk_chunk_c7.protocol");
    assert_eq!(plan.files[1].data, vec![0x50, 0x51]);
    assert_eq!(plan.envelope_path, "out/full_proof_chunk_c7.json");
    assert_eq!(ChunkProof::dump_filename("c7"), "chunk_c7");
}

#[test]
fn evm_proof_dump_plan_names_the_files() {
    let snark = sample_snark();
    let evm = EvmProof::new(
        snark.proof.clone(),
        &snark.instances,
        vec![25],
        vec![8],
        String::from("v0"),
    );
    assert_eq!(evm.num_instance, vec![25]);
    let plan = evm.dump("out", "bundle");
    assert_eq!(plan.files[0].path, "out/vk_evm_bundle.vkey");
    assert_eq!(plan.envelope_path, "out/full_proof_evm_bundle.json");
    assert_eq!(EvmProof::dump_filename("bundle"), "evm_bundle");
}

#[test]
fn proof_v2_paths_use_the_layer_name() {
    assert_eq!(path_proof::<ChunkProofV2Metadata>("d", "s"), "d/proof_chunk_s.json");
    assert_eq!(path_vk::<BatchProofV2Metadata>("d", "s"), "d/vk_batch_s.vkey");
    assert_eq!(
        path_protocol::<BundleProofV2Metadata>("d", "s"),
        "d/protocol_bundle_s.protocol"
    );
}

#[test]
fn proof_v2_round_trips_through_its_envelope() {
    let snark = sample_snark();
    let metadata =
        ChunkProofV2Metadata::new(&snark, ChunkKind::Halo2, sample_chunk_info());
    assert_eq!(metadata.protocol(), &snark.protocol);
    assert_eq!(metadata.chunk_kind(), ChunkKind::Halo2);
    assert_eq!(metadata.chunk_info().chain_id, 5);
    let envelope: ChunkProofV2 =
        ProofV2::new(snark.dup(), vec![3], metadata, String::from("v0"));
    let back = envelope.try_to_snark().expect("chunk metadata holds a protocol");
    assert_eq!(back.protocol, snark.protocol);
    assert_eq!(back.proof, snark.proof);
    assert_eq!(back.instances[0][0].bytes, fr_from_u64(11).bytes);
}

#[test]
fn bundle_envelope_has_no_protocol() {
    let bundle =
        BundleProofV2::new_from_raw(&vec![1], &vec![0u8; 800], &vec![2], String::new()).unwrap();
    match bundle.try_to_snark() {
        Err(ProverError::Custom(_)) => {}
        _ => panic!("bundle metadata holds no protocol"),
    }
    let plan = bundle.dump("d", "s");
    assert_eq!(plan.files.len(), 1);
    assert_eq!(plan.files[0].path, "d/vk_bundle_s.vkey");
    assert_eq!(plan.envelope_path, "d/proof_bundle_s.json");
}

#[test]
fn chunk_proof_v2_dump_plan_includes_the_protocol() {
    let snark = sample_snark();
    let metadata = ChunkProofV2Metadata::new(&snark, ChunkKind::Halo2, sample_chunk_info());
    let envelope: ChunkProofV2 = ProofV2::new(snark, vec![3], metadata, String::from("v0"));
    let plan = envelope.dump("d", "s");
    assert_eq!(plan.files.len(), 2);
    assert_eq!(plan.files[1].path, "d/protocol_chunk_s.protocol");
    assert_eq!(plan.files[1].data, vec![0x50, 0x51]);
}

#[test]
fn verifiers_map_outcomes_to_their_errors() {
    let chunk_verifier = zkevm_verifier::Verifier::new(vec![1], 25);
    assert!(chunk_verifier.verify_chunk_proof(true).is_ok());
    match chunk_verifier.verify_chunk_proof(false) {
        Err(ProverError::ChunkProverError(ChunkProverError::Verification)) => {}
        _ => panic!("chunk verification failure maps to its own error"),
    }

    let verifier = batch_verifier::Verifier::new(vec![1], 26, vec![0xfe]);
    assert!(verifier.verify_batch_proof(true).is_ok());
    match verifier.verify_batch_proof(false) {
        Err(ProverError::BatchProverError(BatchProverError::Verification)) => {}
        _ => panic!("batch verification failure maps to its own error"),
    }

    let common = common_verifier::Verifier::new(vec![1], 26);
    assert!(common.gen_evm_verifier(true).is_ok());
    match common.gen_evm_verifier(false) {
        Err(ProverError::BatchProverError(BatchProverError::SanityEVMVerifier)) => {}
        _ => panic!("sanity failure maps to its own error"),
    }
}

#[test]
fn bundle_verification_requires_deployment_code() {
    let bundle =
        BundleProofV2::new_from_raw(&vec![5, 6], &vec![0u8; 800], &vec![], String::new()).unwrap();
    let with_code = batch_verifier::Verifier::new(vec![1], 26, vec![0xfe]);
    let (code, calldata) = with_code.verify_bundle_request(&bundle).unwrap();
    assert_eq!(code, vec![0xfe]);
    assert_eq!(calldata.len(), 802);
    assert_eq!(&calldata[800..], &[5, 6]);
    assert!(with_code.verify_bundle_outcome(Ok(21000)).is_ok());
    match with_code.verify_bundle_outcome(Err(String::from("revert"))) {
        Err(ProverError::BatchProverError(BatchProverError::Custom(msg))) => {
            assert_eq!(msg, "revert");
        }
        _ => panic!("a revert maps to its message"),
    }

    let without_code = batch_verifier::Verifier {
        inner: common_verifier::Verifier::new(vec![1], 26),
        deployment_code: None,
    };
    match without_code.verify_bundle_request(&bundle) {
        Err(ProverError::BatchProverError(BatchProverError::VerifierCodeMissing)) => {}
        _ => panic!("missing code is its own condition"),
    }
}
