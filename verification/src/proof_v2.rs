//! The versioned proof envelope produced at the pipeline's checkpoints:
//! chunk, batch, and bundle proofs share one envelope around differing
//! metadata.
//!
//! The bundle envelope additionally assembles the on-chain calldata: the
//! encoded public values followed by the raw proof bytes, with no length
//! prefix and no version tag — the consumer contract knows the fixed
//! instance count.

use vstd::prelude::*;
use vstd::string::StringExecFns;
use crate::chunk::{ChunkInfo, ChunkKind};
use crate::errors::{BatchProverError, ProverError};
use crate::proofs::{DumpArtifact, DumpPlan};
use crate::snark::{Snark, serialize_instances, deserialize_instances, spec_instance_bytes, spec_instances_of_bytes, col_wf_canonical};

verus! {

/// The layer-specific metadata carried inside a proof envelope.
pub trait Proof: Sized {
    /// The name of the proof layer, as it appears in file names.
    spec fn spec_name() -> Seq<char>;

    /// The structural protocol stored in the metadata, if any.
    spec fn spec_protocol(&self) -> Option<Seq<u8>>;

    /// The name of the proof layer.
    fn name() -> (r: &'static str)
        ensures
            r@ == Self::spec_name(),
    ;

    /// The stored structural protocol, if any in the metadata.
    fn protocol(&self) -> (r: Option<&Vec<u8>>)
        ensures
            r is Some <==> self.spec_protocol() is Some,
            r is Some ==> r->0@ == self.spec_protocol()->0,
    ;
}

/// `{dir}/proof_{name}_{suffix}.json`
pub fn path_proof<T: Proof>(dir: &str, suffix: &str) -> (r: String)
    ensures
        r@ == dir@ + "/proof_"@ + T::spec_name() + "_"@ + suffix@ + ".json"@,
{
    let mut r = String::from_str(dir);
    r.append("/proof_");
    r.append(T::name());
    r.append("_");
    r.append(suffix);
    r.append(".json");
    r
}

/// `{dir}/vk_{name}_{suffix}.vkey`
pub fn path_vk<T: Proof>(dir: &str, suffix: &str) -> (r: String)
    ensures
        r@ == dir@ + "/vk_"@ + T::spec_name() + "_"@ + suffix@ + ".vkey"@,
{
    let mut r = String::from_str(dir);
    r.append("/vk_");
    r.append(T::name());
    r.append("_");
    r.append(suffix);
    r.append(".vkey");
    r
}

/// `{dir}/protocol_{name}_{suffix}.protocol`
pub fn path_protocol<T: Proof>(dir: &str, suffix: &str) -> (r: String)
    ensures
        r@ == dir@ + "/protocol_"@ + T::spec_name() + "_"@ + suffix@ + ".protocol"@,
{
    let mut r = String::from_str(dir);
    r.append("/protocol_");
    r.append(T::name());
    r.append("_");
    r.append(suffix);
    r.append(".protocol");
    r
}

/// A proof generated at a checkpoint of the pipeline: the layer-specific
/// metadata, the raw proof bytes, the encoded public values, the raw
/// verifying key, and the build provenance of the generating code.
pub struct ProofV2<Inner> {
    pub inner: Inner,
    pub proof: Vec<u8>,
    pub instances: Vec<u8>,
    pub vk: Vec<u8>,
    pub git_version: String,
}

impl<Inner: Proof> ProofV2<Inner> {
    /// The instance bytes decode back into a column of canonical field
    /// elements, a whole field element per 32 bytes.
    pub open spec fn wf(self) -> bool {
        self.instances@.len() % 32 == 0 && col_wf_canonical(
            spec_instances_of_bytes(self.instances@),
        )
    }

    /// Construct a new envelope from a proof artifact, the raw verifying
    /// key, and the layer's metadata.
    pub fn new(snark: Snark, vk: Vec<u8>, inner: Inner, git_version: String) -> (r: ProofV2<
        Inner,
    >)
        requires
            snark@.instances.len() == 1,
            snark.wf(),
        ensures
            r.proof@ == snark@.proof,
            r.instances@ == spec_instance_bytes(snark@.instances[0]),
            r.instances@.len() % 32 == 0,
            r.wf(),
            r.vk@ == vk@,
            r.git_version@ == git_version@,
            r.inner == inner,
    {
        let encoded = serialize_instances(&snark.instances);
        proof {
            assert(snark.instances@[0].deep_view() == snark@.instances[0]);
        }
        ProofV2 { inner, proof: snark.proof, instances: encoded, vk, git_version }
    }

    /// Rebuild the proof artifact from the envelope.
    ///
    /// Fails exactly when the metadata holds no structural protocol; a
    /// stored protocol is carried over together with the decoded public
    /// values.
    pub fn try_to_snark(&self) -> (r: Result<Snark, ProverError>)
        requires
            self.wf(),
        ensures
            r is Ok <==> self.inner.spec_protocol() is Some,
            r matches Ok(s) ==> s@.protocol == self.inner.spec_protocol()->0 && s@.proof
                == self.proof@ && s@.instances.len() == 1 && s@.instances[0]
                == spec_instances_of_bytes(self.instances@),
    {
        let protocol: Vec<u8> = match self.inner.protocol() {
            Some(p) => p.clone(),
            None => {
                return Err(
                    ProverError::Custom(
                        String::from_str(
                            "protocol either not found or cannot be deserialized successfully",
                        ),
                    ),
                );
            },
        };
        match deserialize_instances(&self.instances) {
            Some(column) => {
                let mut instances: Vec<Vec<crate::snark::Fr>> = Vec::new();
                instances.push(column);
                Ok(Snark { protocol, proof: self.proof.clone(), instances })
            },
            None => {
                proof {
                    assert(false);
                }
                Err(ProverError::Custom(String::new()))
            },
        }
    }
}

impl<Inner: Proof> ProofV2<Inner> {
    /// What dumping this envelope writes: the raw verifying key, the
    /// layer's serialized protocol if its metadata holds one, and the path
    /// under which the caller serializes and writes the JSON envelope.
    pub fn dump(&self, dir: &str, suffix: &str) -> (r: DumpPlan)
        ensures
            r.envelope_path@ == dir@ + "/proof_"@ + Inner::spec_name() + "_"@ + suffix@
                + ".json"@,
            r.files@.len() == if self.inner.spec_protocol() is Some {
                2int
            } else {
                1int
            },
            r.files@[0].path@ == dir@ + "/vk_"@ + Inner::spec_name() + "_"@ + suffix@ + ".vkey"@,
            r.files@[0].data@ == self.vk@,
            self.inner.spec_protocol() is Some ==> r.files@[1].path@ == dir@ + "/protocol_"@
                + Inner::spec_name() + "_"@ + suffix@ + ".protocol"@ && r.files@[1].data@
                == self.inner.spec_protocol()->0,
    {
        let mut files: Vec<DumpArtifact> = Vec::new();
        files.push(DumpArtifact { path: path_vk::<Inner>(dir, suffix), data: self.vk.clone() });
        match self.inner.protocol() {
            Some(protocol) => {
                files.push(
                    DumpArtifact {
                        path: path_protocol::<Inner>(dir, suffix),
                        data: protocol.clone(),
                    },
                );
            },
            None => {},
        }
        DumpPlan { files, envelope_path: path_proof::<Inner>(dir, suffix) }
    }
}

/// Metadata of a chunk proof: the serialized structural protocol, the
/// proving route, and the chunk's execution summary.
pub struct ChunkProofV2Metadata {
    pub protocol: Vec<u8>,
    pub chunk_kind: ChunkKind,
    pub chunk_info: ChunkInfo,
}

impl ChunkProofV2Metadata {
    /// Construct new chunk proof metadata from the artifact it annotates.
    pub fn new(snark: &Snark, chunk_kind: ChunkKind, chunk_info: ChunkInfo) -> (r:
        ChunkProofV2Metadata)
        ensures
            r.protocol@ == snark@.protocol,
            r.chunk_kind == chunk_kind,
            r.chunk_info@ == chunk_info@,
    {
        ChunkProofV2Metadata { protocol: snark.protocol.clone(), chunk_kind, chunk_info }
    }

    /// The chunk execution summary embedded in the metadata.
    pub fn chunk_info(&self) -> (r: &ChunkInfo)
        ensures
            r@ == self.chunk_info@,
    {
        &self.chunk_info
    }

    /// The proving route of the chunk.
    pub fn chunk_kind(&self) -> (r: ChunkKind)
        ensures
            r == self.chunk_kind,
    {
        self.chunk_kind
    }

    /// The serialized structural protocol of the chunk proof.
    pub fn protocol(&self) -> (r: &Vec<u8>)
        ensures
            r@ == self.protocol@,
    {
        &self.protocol
    }
}

impl Proof for ChunkProofV2Metadata {
    open spec fn spec_name() -> Seq<char> {
        "chunk"@
    }

    open spec fn spec_protocol(&self) -> Option<Seq<u8>> {
        Some(self.protocol@)
    }

    fn name() -> (r: &'static str) {
        "chunk"
    }

    fn protocol(&self) -> (r: Option<&Vec<u8>>) {
        Some(&self.protocol)
    }
}

/// Metadata of a batch proof: the serialized structural protocol and the
/// hash of the batch's header.
pub struct BatchProofV2Metadata {
    pub protocol: Vec<u8>,
    pub batch_hash: Vec<u8>,
}

impl BatchProofV2Metadata {
    /// Construct new batch proof metadata from the artifact it annotates
    /// and the 32-byte hash of the batch's header.
    pub fn new(snark: &Snark, batch_hash: Vec<u8>) -> (r: BatchProofV2Metadata)
        requires
            batch_hash@.len() == 32,
        ensures
            r.protocol@ == snark@.protocol,
            r.batch_hash@ == batch_hash@,
    {
        BatchProofV2Metadata { protocol: snark.protocol.clone(), batch_hash }
    }
}

impl Proof for BatchProofV2Metadata {
    open spec fn spec_name() -> Seq<char> {
        "batch"@
    }

    open spec fn spec_protocol(&self) -> Option<Seq<u8>> {
        Some(self.protocol@)
    }

    fn name() -> (r: &'static str) {
        "batch"
    }

    fn protocol(&self) -> (r: Option<&Vec<u8>>) {
        Some(&self.protocol)
    }
}

/// Metadata of a bundle proof: the terminal layer carries none.
#[derive(Default)]
pub struct BundleProofV2Metadata;

impl Proof for BundleProofV2Metadata {
    open spec fn spec_name() -> Seq<char> {
        "bundle"@
    }

    open spec fn spec_protocol(&self) -> Option<Seq<u8>> {
        None
    }

    fn name() -> (r: &'static str) {
        "bundle"
    }

    fn protocol(&self) -> (r: Option<&Vec<u8>>) {
        None
    }
}

/// A chunk proof in the versioned envelope.
pub type ChunkProofV2 = ProofV2<ChunkProofV2Metadata>;

/// A batch proof in the versioned envelope.
pub type BatchProofV2 = ProofV2<BatchProofV2Metadata>;

/// A bundle proof in the versioned envelope.
pub type BundleProofV2 = ProofV2<BundleProofV2Metadata>;

/// Number of field elements encoding the commitment scheme accumulator
/// carried by the terminal circuit.
pub const ACCUMULATOR_LEN: usize = 12;

/// Bytes encoding the accumulator: 32 per field element.
pub const ACCUMULATOR_BYTES: usize = ACCUMULATOR_LEN * 32;

/// Number of field elements of application public input carried forward
/// into the terminal circuit.
pub const PUBLIC_INPUT_LEN: usize = 13;

/// Bytes encoding the application public input: 32 per field element.
pub const PUBLIC_INPUT_BYTES: usize = PUBLIC_INPUT_LEN * 32;

impl ProofV2<BundleProofV2Metadata> {
    /// Construct a bundle proof from raw proof, instance and key bytes, as
    /// produced by the EVM-targeted proving route.
    ///
    /// The instance bytes must encode exactly the fixed public input and
    /// accumulator: any other length is the structural corruption the
    /// public-inputs mismatch error reports, with the expected and the
    /// found byte count.
    pub fn new_from_raw(proof: &Vec<u8>, instances: &Vec<u8>, vk: &Vec<u8>, git_version: String) -> (r:
        Result<ProofV2<BundleProofV2Metadata>, ProverError>)
        ensures
            r is Ok <==> instances@.len() == ACCUMULATOR_BYTES + PUBLIC_INPUT_BYTES,
            r matches Ok(p) ==> p.proof@ == proof@ && p.instances@ == instances@ && p.vk@ == vk@
                && p.git_version@ == git_version@,
            r matches Err(e) ==> (e matches ProverError::BatchProverError(
                BatchProverError::PublicInputsMismatch(expected, got),
            ) && expected == ACCUMULATOR_BYTES + PUBLIC_INPUT_BYTES && got == instances@.len()),
    {
        let expected_len = ACCUMULATOR_BYTES + PUBLIC_INPUT_BYTES;
        let got_len = instances.len();
        if got_len != expected_len {
            return Err(
                ProverError::BatchProverError(
                    BatchProverError::PublicInputsMismatch(expected_len, got_len),
                ),
            );
        }
        Ok(
            ProofV2 {
                inner: BundleProofV2Metadata,
                proof: proof.clone(),
                instances: instances.clone(),
                vk: vk.clone(),
                git_version,
            },
        )
    }

    /// Encode the calldata for the on-chain verification transaction:
    /// `[instance bytes | proof bytes]`, nothing else.
    pub fn calldata(&self) -> (r: Vec<u8>)
        ensures
            r@ == self.instances@ + self.proof@,
    {
        let mut r = self.instances.clone();
        let mut tail = self.proof.clone();
        r.append(&mut tail);
        r
    }
}

/// Calldata assembly: the calldata of a bundle proof is exactly the
/// instance bytes followed by the proof bytes; with the fixed instance
/// count of the terminal circuit, the instance part is 800 bytes, and each
/// part is recoverable from the calldata by position.
pub proof fn lemma_bundle_calldata_layout(instances: Seq<u8>, proof: Seq<u8>, calldata: Seq<u8>)
    requires
        calldata == instances + proof,
        instances.len() == ACCUMULATOR_BYTES + PUBLIC_INPUT_BYTES,
    ensures
        calldata.len() == 800 + proof.len(),
        calldata.subrange(0, 800) == instances,
        calldata.subrange(800, calldata.len() as int) == proof,
{
    assert(calldata.subrange(0, 800) =~= instances);
    assert(calldata.subrange(800, calldata.len() as int) =~= proof);
}

} // verus!
