//! Chunk-level proof data: the execution summary of a chunk, the
//! consistency check between two such summaries, and the legacy chunk
//! proof envelope.

use vstd::prelude::*;
use vstd::string::StringExecFns;
use crate::proofs::{InnerProof, DumpArtifact, DumpPlan};
use crate::snark::{Snark, spec_instance_bytes, spec_instances_of_bytes};

verus! {

/// Which route produced the innermost proof.
#[derive(Clone, Copy, Debug, PartialEq, Eq, Structural)]
pub enum ChunkKind {
    /// The halo2-based super circuit.
    Halo2,
    /// An sp1-based STARK with a halo2 backend.
    Sp1,
}

impl Default for ChunkKind {
    fn default() -> (r: Self)
        ensures
            r == ChunkKind::Halo2,
    {
        ChunkKind::Halo2
    }
}

/// The EVM execution summary of one chunk, as the aggregation circuit
/// consumes it: the chain, the state roots before and after, the withdraw
/// root, the data hash, and the raw transaction bytes.
pub struct ChunkInfo {
    pub chain_id: u64,
    pub prev_state_root: Vec<u8>,
    pub post_state_root: Vec<u8>,
    pub withdraw_root: Vec<u8>,
    pub data_hash: Vec<u8>,
    pub tx_bytes: Vec<u8>,
}

/// The mathematical content of a chunk summary.
pub ghost struct ChunkInfoView {
    pub chain_id: u64,
    pub prev_state_root: Seq<u8>,
    pub post_state_root: Seq<u8>,
    pub withdraw_root: Seq<u8>,
    pub data_hash: Seq<u8>,
    pub tx_bytes: Seq<u8>,
}

impl View for ChunkInfo {
    type V = ChunkInfoView;

    open spec fn view(&self) -> ChunkInfoView {
        ChunkInfoView {
            chain_id: self.chain_id,
            prev_state_root: self.prev_state_root@,
            post_state_root: self.post_state_root@,
            withdraw_root: self.withdraw_root@,
            data_hash: self.data_hash@,
            tx_bytes: self.tx_bytes@,
        }
    }
}

/// The fields of a chunk summary, in the order the consistency check
/// examines them.
#[derive(Clone, Copy, Debug, PartialEq, Eq, Structural)]
pub enum ChunkInfoField {
    ChainId,
    PrevStateRoot,
    PostStateRoot,
    WithdrawRoot,
    DataHash,
    TxBytes,
}

/// A reported inconsistency: which chunk the check was over and the first
/// field on which the two summaries disagree.
#[derive(Debug)]
pub struct ChunkInfoMismatch {
    pub name: String,
    pub field: ChunkInfoField,
}

/// Whether two chunk summaries agree on every checked field.
pub open spec fn chunk_info_consistent(lhs: ChunkInfoView, rhs: ChunkInfoView) -> bool {
    &&& lhs.chain_id == rhs.chain_id
    &&& lhs.prev_state_root == rhs.prev_state_root
    &&& lhs.post_state_root == rhs.post_state_root
    &&& lhs.withdraw_root == rhs.withdraw_root
    &&& lhs.data_hash == rhs.data_hash
    &&& lhs.tx_bytes == rhs.tx_bytes
}

/// Whether `field` is the first field, in checking order, on which the two
/// summaries disagree.
pub open spec fn first_mismatch(lhs: ChunkInfoView, rhs: ChunkInfoView, field: ChunkInfoField) -> bool {
    match field {
        ChunkInfoField::ChainId => lhs.chain_id != rhs.chain_id,
        ChunkInfoField::PrevStateRoot => lhs.chain_id == rhs.chain_id
            && lhs.prev_state_root != rhs.prev_state_root,
        ChunkInfoField::PostStateRoot => lhs.chain_id == rhs.chain_id
            && lhs.prev_state_root == rhs.prev_state_root
            && lhs.post_state_root != rhs.post_state_root,
        ChunkInfoField::WithdrawRoot => lhs.chain_id == rhs.chain_id
            && lhs.prev_state_root == rhs.prev_state_root
            && lhs.post_state_root == rhs.post_state_root
            && lhs.withdraw_root != rhs.withdraw_root,
        ChunkInfoField::DataHash => lhs.chain_id == rhs.chain_id
            && lhs.prev_state_root == rhs.prev_state_root
            && lhs.post_state_root == rhs.post_state_root
            && lhs.withdraw_root == rhs.withdraw_root
            && lhs.data_hash != rhs.data_hash,
        ChunkInfoField::TxBytes => lhs.chain_id == rhs.chain_id
            && lhs.prev_state_root == rhs.prev_state_root
            && lhs.post_state_root == rhs.post_state_root
            && lhs.withdraw_root == rhs.withdraw_root
            && lhs.data_hash == rhs.data_hash
            && lhs.tx_bytes != rhs.tx_bytes,
    }
}

/// Compare two byte strings for equality.
fn bytes_eq(a: &Vec<u8>, b: &Vec<u8>) -> (r: bool)
    ensures
        r == (a@ == b@),
{
    if a.len() != b.len() {
        proof {
            assert(a@.len() != b@.len());
        }
        return false;
    }
    let n = a.len();
    let mut i: usize = 0;
    while i < n
        invariant
            0 <= i <= n,
            n == a@.len() == b@.len(),
            forall|k: int| 0 <= k < i ==> a@[k] == b@[k],
        decreases n - i,
    {
        if a[i] != b[i] {
            return false;
        }
        i = i + 1;
    }
    proof {
        assert(a@ =~= b@);
    }
    true
}

/// Check that a chunk summary re-derived from execution is consistent with
/// the summary embedded inside a previously generated proof.
///
/// Reports equality exactly when every checked field agrees, and otherwise
/// names the first field, in checking order, on which the two disagree —
/// a fatal indicator that a wrong or stale proof was fed in.
pub fn compare_chunk_info(name: &str, lhs: &ChunkInfo, rhs: &ChunkInfo) -> (r: Result<
    (),
    ChunkInfoMismatch,
>)
    ensures
        r is Ok <==> chunk_info_consistent(lhs@, rhs@),
        r matches Err(e) ==> first_mismatch(lhs@, rhs@, e.field) && e.name@ == name@,
{
    if lhs.chain_id != rhs.chain_id {
        return Err(
            ChunkInfoMismatch { name: String::from_str(name), field: ChunkInfoField::ChainId },
        );
    }
    if !bytes_eq(&lhs.prev_state_root, &rhs.prev_state_root) {
        return Err(
            ChunkInfoMismatch {
                name: String::from_str(name),
                field: ChunkInfoField::PrevStateRoot,
            },
        );
    }
    if !bytes_eq(&lhs.post_state_root, &rhs.post_state_root) {
        return Err(
            ChunkInfoMismatch {
                name: String::from_str(name),
                field: ChunkInfoField::PostStateRoot,
            },
        );
    }
    if !bytes_eq(&lhs.withdraw_root, &rhs.withdraw_root) {
        return Err(
            ChunkInfoMismatch { name: String::from_str(name), field: ChunkInfoField::WithdrawRoot },
        );
    }
    if !bytes_eq(&lhs.data_hash, &rhs.data_hash) {
        return Err(
            ChunkInfoMismatch { name: String::from_str(name), field: ChunkInfoField::DataHash },
        );
    }
    if !bytes_eq(&lhs.tx_bytes, &rhs.tx_bytes) {
        return Err(
            ChunkInfoMismatch { name: String::from_str(name), field: ChunkInfoField::TxBytes },
        );
    }
    Ok(())
}

/// Consistency is decided field by field: the check accepts exactly the
/// pairs that agree everywhere, and a rejected pair always has a first
/// disagreeing field, which the report names.
pub proof fn lemma_mismatch_is_exclusive(lhs: ChunkInfoView, rhs: ChunkInfoView, f: ChunkInfoField)
    requires
        first_mismatch(lhs, rhs, f),
    ensures
        !chunk_info_consistent(lhs, rhs),
        forall|g: ChunkInfoField| g != f ==> !first_mismatch(lhs, rhs, g),
{
}

/// The legacy chunk proof envelope: the serialized structural protocol,
/// the proof envelope, and the chunk summary the proof is over.
pub struct ChunkProof {
    pub protocol: Vec<u8>,
    pub proof: InnerProof,
    pub chunk_info: ChunkInfo,
    pub chunk_kind: ChunkKind,
}

impl ChunkProof {
    /// Wrap a proof artifact with its chunk summary.
    pub fn new(snark: Snark, vk: Vec<u8>, chunk_info: ChunkInfo, chunk_kind: ChunkKind, git_version: String) -> (r:
        ChunkProof)
        requires
            snark@.instances.len() == 1,
            snark.wf(),
        ensures
            r.protocol@ == snark@.protocol,
            r.proof.proof@ == snark@.proof,
            r.proof.instances@ == spec_instance_bytes(snark@.instances[0]),
            r.proof.wf(),
            r.proof.vk@ == vk@,
            r.chunk_info@ == chunk_info@,
            r.chunk_kind == chunk_kind,
    {
        let protocol = snark.protocol.clone();
        let proof = InnerProof::from_snark(snark, vk, git_version);
        ChunkProof { protocol, proof, chunk_info, chunk_kind }
    }

    /// Rebuild the proof artifact this envelope was made from.
    ///
    /// Rejected exactly when the stored instance bytes are no whole number
    /// of canonical field elements.
    pub fn to_snark(&self) -> (r: Option<Snark>)
        ensures
            r is Some <==> self.proof.wf(),
            r is Some ==> r->0@.protocol == self.protocol@,
            r is Some ==> r->0@.proof == self.proof.proof@,
            r is Some ==> r->0@.instances.len() == 1 && r->0@.instances[0]
                == spec_instances_of_bytes(self.proof.instances@),
    {
        match self.proof.instances() {
            Some(instances) => Some(
                Snark {
                    protocol: self.protocol.clone(),
                    proof: self.proof.proof.clone(),
                    instances,
                },
            ),
            None => None,
        }
    }

    /// The file name this proof is dumped under.
    pub fn dump_filename(name: &str) -> (r: String)
        ensures
            r@ == "chunk_"@ + name@,
    {
        let mut r = String::from_str("chunk_");
        r.append(name);
        r
    }

    /// What dumping this proof writes under the given artifact name: the
    /// raw verifying key and the serialized protocol beside the JSON
    /// envelope, all under the chunk file name.
    pub fn dump(&self, dir: &str, name: &str) -> (r: DumpPlan)
        ensures
            r.files@.len() == 2,
            r.files@[0].path@ == dir@ + "/"@ + "vk_"@ + ("chunk_"@ + name@) + ".vkey"@,
            r.files@[0].data@ == self.proof.vk@,
            r.files@[1].path@ == dir@ + "/"@ + "chunk_"@ + ("chunk_"@ + name@) + ".protocol"@,
            r.files@[1].data@ == self.protocol@,
            r.envelope_path@ == dir@ + "/full_proof_"@ + ("chunk_"@ + name@) + ".json"@,
    {
        let filename = Self::dump_filename(name);
        let mut plan = self.proof.dump(dir, filename.as_str());
        let mut protocol_path = String::from_str(dir);
        protocol_path.append("/");
        protocol_path.append("chunk_");
        protocol_path.append(filename.as_str());
        protocol_path.append(".protocol");
        plan.files.push(DumpArtifact { path: protocol_path, data: self.protocol.clone() });
        plan
    }
}

} // verus!
