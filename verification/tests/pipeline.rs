//! The pipeline's decision logic: layer identifiers, cache behaviour,
//! recursion rounds, consistency checks, and calldata assembly.

use rollup_prover::cache::{
    load_or_gen_start, on_cache_lookup, on_generated, on_persisted, snark_cache_filename,
    LoadOrGenStep,
};
use rollup_prover::chunk::{compare_chunk_info, ChunkInfo, ChunkInfoField, ChunkKind};
use rollup_prover::config::{asset_file_path, layer_config_path, LayerDegrees, LayerId};
use rollup_prover::errors::{BatchProverError, ProverError};
use rollup_prover::proof_v2::BundleProofV2;
use rollup_prover::recursion::{check_batch_snarks_nonempty, next_action, RecursionAction, RecursionTask};
use rollup_prover::snark::Snark;

fn snark(tag: u8) -> Snark {
    Snark { protocol: vec![tag], proof: vec![tag, tag], instances: Vec::new() }
}

#[test]
fn layer_ids_and_accumulators() {
    assert_eq!(LayerId::Inner.id(), "inner");
    assert_eq!(LayerId::Layer5.id(), "layer5");
    assert!(!LayerId::Inner.accumulator());
    for layer in [
        LayerId::Layer1,
        LayerId::Layer2,
        LayerId::Layer3,
        LayerId::Layer4,
        LayerId::Layer5,
        LayerId::Layer6,
    ] {
        assert!(layer.accumulator());
    }
}

#[test]
fn layer_degrees_are_looked_up_by_stage() {
    let degrees = LayerDegrees {
        inner: 20,
        layer1: 25,
        layer2: 25,
        layer3: 26,
        layer4: 26,
        layer5: 21,
        layer6: 26,
    };
    assert_eq!(LayerId::Inner.degree(&degrees), 20);
    assert_eq!(LayerId::Layer4.degree(&degrees), 26);
    assert_eq!(LayerId::Layer5.degree(&degrees), 21);
}

#[test]
fn layer_config_paths() {
    assert_eq!(LayerId::Layer1.config_path("configs"), "configs/layer1.config");
    assert_eq!(layer_config_path("layer6", "assets"), "assets/layer6.config");
    assert_eq!(asset_file_path("assets", "chunk_vk.vkey"), "assets/chunk_vk.vkey");
}

#[test]
fn errors_wrap_their_sources() {
    let e = BatchProverError::from(String::from("boom"));
    assert!(matches!(e, BatchProverError::Custom(ref msg) if msg == "boom"));
    let p = ProverError::from(e);
    assert!(matches!(p, ProverError::BatchProverError(BatchProverError::Custom(_))));
}

#[test]
fn cache_filenames() {
    assert_eq!(
        snark_cache_filename("recursion", "layer5", "bundle-7"),
        "recursion_snark_layer5_bundle-7.json"
    );
    assert_eq!(snark_cache_filename("inner", "inner", "c1"), "inner_snark_inner_c1.json");
}

/// Drive the load-or-generate step the way the orchestration loop does,
/// counting adapter invocations through a probe.
fn run_load_or_gen(
    cache: &mut Option<Snark>,
    use_cache: bool,
    adapter_calls: &mut usize,
) -> Snark {
    let mut step = load_or_gen_start(use_cache);
    loop {
        step = match step {
            LoadOrGenStep::Lookup => {
                let found = cache.as_ref().map(|s| s.dup());
                on_cache_lookup(found)
            }
            LoadOrGenStep::Generate => {
                *adapter_calls += 1;
                on_generated(snark(0x77), use_cache)
            }
            LoadOrGenStep::Persist(s) => {
                *cache = Some(s.dup());
                on_persisted(s)
            }
            LoadOrGenStep::Done(s) => return s,
        };
    }
}

#[test]
fn cache_idempotence_skips_the_adapter() {
    let mut cache: Option<Snark> = None;
    let mut adapter_calls: usize = 0;
    let first = run_load_or_gen(&mut cache, true, &mut adapter_calls);
    assert_eq!(adapter_calls, 1);
    let second = run_load_or_gen(&mut cache, true, &mut adapter_calls);
    // The second call returns a structurally equal artifact without
    // invoking the adapter again.
    assert_eq!(adapter_calls, 1);
    assert_eq!(first.protocol, second.protocol);
    assert_eq!(first.proof, second.proof);
}

#[test]
fn no_cache_directory_means_generate_every_time() {
    let mut cache: Option<Snark> = None;
    let mut adapter_calls: usize = 0;
    run_load_or_gen(&mut cache, false, &mut adapter_calls);
    run_load_or_gen(&mut cache, false, &mut adapter_calls);
    assert_eq!(adapter_calls, 2);
    assert!(cache.is_none());
}

#[test]
fn recursion_folds_once_per_batch() {
    let batches = vec![snark(1), snark(2), snark(3)];
    let n = batches.len();
    assert!(check_batch_snarks_nonempty(&batches).is_ok());
    let mut task = RecursionTask::new(batches);
    let mut rounds: usize = 0;
    while !task.completed() {
        match next_action(&task) {
            RecursionAction::Fold { round } => {
                assert_eq!(round as usize, rounds);
                // The next batch artifact to fold is the head of the queue.
                let next = task.iter_snark();
                assert_eq!(next.protocol, vec![(rounds + 1) as u8]);
            }
            RecursionAction::Finished => panic!("finished while work remains"),
        }
        task = task.state_transition();
        rounds += 1;
    }
    assert_eq!(rounds, n);
    assert!(matches!(next_action(&task), RecursionAction::Finished));
}

#[test]
fn recursion_rejects_an_empty_batch_list() {
    let r = check_batch_snarks_nonempty(&Vec::new());
    assert!(matches!(r, Err(BatchProverError::Custom(_))));
}

#[test]
fn chunk_info_consistency_accepts_equal_summaries() {
    let info = ChunkInfo {
        chain_id: 534352,
        prev_state_root: vec![1; 32],
        post_state_root: vec![2; 32],
        withdraw_root: vec![3; 32],
        data_hash: vec![4; 32],
        tx_bytes: vec![0xde, 0xad],
    };
    let same = ChunkInfo {
        chain_id: 534352,
        prev_state_root: vec![1; 32],
        post_state_root: vec![2; 32],
        withdraw_root: vec![3; 32],
        data_hash: vec![4; 32],
        tx_bytes: vec![0xde, 0xad],
    };
    assert!(compare_chunk_info("chunk-0", &info, &same).is_ok());
}

#[test]
fn chunk_info_mismatch_names_the_perturbed_field() {
    let base = ChunkInfo {
        chain_id: 534352,
        prev_state_root: vec![1; 32],
        post_state_root: vec![2; 32],
        withdraw_root: vec![3; 32],
        data_hash: vec![4; 32],
        tx_bytes: vec![0xde, 0xad],
    };
    let cases: Vec<(ChunkInfo, ChunkInfoField)> = vec![
        (
            ChunkInfo { chain_id: 1, prev_state_root: vec![1; 32], post_state_root: vec![2; 32], withdraw_root: vec![3; 32], data_hash: vec![4; 32], tx_bytes: vec![0xde, 0xad] },
            ChunkInfoField::ChainId,
        ),
        (
            ChunkInfo { chain_id: 534352, prev_state_root: vec![9; 32], post_state_root: vec![2; 32], withdraw_root: vec![3; 32], data_hash: vec![4; 32], tx_bytes: vec![0xde, 0xad] },
            ChunkInfoField::PrevStateRoot,
        ),
        (
            ChunkInfo { chain_id: 534352, prev_state_root: vec![1; 32], post_state_root: vec![9; 32], withdraw_root: vec![3; 32], data_hash: vec![4; 32], tx_bytes: vec![0xde, 0xad] },
            ChunkInfoField::PostStateRoot,
        ),
        (
            ChunkInfo { chain_id: 534352, prev_state_root: vec![1; 32], post_state_root: vec![2; 32], withdraw_root: vec![9; 32], data_hash: vec![4; 32], tx_bytes: vec![0xde, 0xad] },
            ChunkInfoField::WithdrawRoot,
        ),
        (
            ChunkInfo { chain_id: 534352, prev_state_root: vec![1; 32], post_state_root: vec![2; 32], withdraw_root: vec![3; 32], data_hash: vec![9; 32], tx_bytes: vec![0xde, 0xad] },
            ChunkInfoField::DataHash,
        ),
        (
            ChunkInfo { chain_id: 534352, prev_state_root: vec![1; 32], post_state_root: vec![2; 32], withdraw_root: vec![3; 32], data_hash: vec![4; 32], tx_bytes: vec![0xde] },
            ChunkInfoField::TxBytes,
        ),
    ];
    for (perturbed, field) in cases {
        let err = compare_chunk_info("chunk-0", &base, &perturbed).unwrap_err();
        assert_eq!(err.field, field);
        assert_eq!(err.name, "chunk-0");
    }
}

#[test]
fn chunk_kind_defaults_to_halo2() {
    assert_eq!(ChunkKind::default(), ChunkKind::Halo2);
}

#[test]
fn bundle_calldata_is_instances_then_proof() {
    let instances = vec![0xabu8; 800];
    let proof = vec![0xcdu8; 96];
    let bundle =
        BundleProofV2::new_from_raw(&proof, &instances, &vec![7u8; 4], String::from("v1"))
            .expect("800 instance bytes");
    let calldata = bundle.calldata();
    assert_eq!(calldata.len(), 800 + 96);
    assert_eq!(&calldata[..800], instances.as_slice());
    assert_eq!(&calldata[800..], proof.as_slice());
}

#[test]
fn bundle_rejects_a_wrong_instance_count() {
    let r = BundleProofV2::new_from_raw(&vec![], &vec![0u8; 799], &vec![], String::new());
    match r {
        Err(ProverError::BatchProverError(BatchProverError::PublicInputsMismatch(
            expected,
            got,
        ))) => {
            assert_eq!(expected, 800);
            assert_eq!(got, 799);
        }
        _ => panic!("expected a public-inputs mismatch"),
    }
}
