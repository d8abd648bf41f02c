//! Persisted proof envelopes around a proof artifact.
//!
//! An envelope carries the raw proof bytes, the public values in their
//! canonical byte encoding, the raw verifying key, and a build-provenance
//! string.  Reading and writing the envelopes is outside work; the
//! encodings and the file names under which they are dumped are pinned
//! down here.

use vstd::prelude::*;
use vstd::string::StringExecFns;
use crate::snark::{Fr, Snark, serialize_instances, deserialize_instances, spec_instance_bytes, spec_instances_of_bytes, col_wf_canonical};

verus! {

/// Proof extracted from a proof artifact: the stable byte-level envelope.
pub struct InnerProof {
    /// The raw bytes of the proof.
    pub proof: Vec<u8>,
    /// The public values, encoded as concatenated big-endian words.
    pub instances: Vec<u8>,
    /// The raw bytes of the verifying key of the circuit used.
    pub vk: Vec<u8>,
    /// The build provenance of the code that generated this proof.
    pub git_version: String,
}

impl InnerProof {
    /// The instance bytes decode back into a column of canonical field
    /// elements.
    pub open spec fn wf(self) -> bool {
        self.instances@.len() % 32 == 0 && col_wf_canonical(
            spec_instances_of_bytes(self.instances@),
        )
    }

    /// Wrap raw proof bytes, one column of public values, and a verifying
    /// key into an envelope.
    pub fn new(proof: Vec<u8>, instances: &Vec<Vec<Fr>>, vk: Vec<u8>, git_version: String) -> (r:
        InnerProof)
        requires
            instances@.len() == 1,
            forall|i: int, j: int|
                0 <= i < instances@.len() && 0 <= j < instances@[i]@.len()
                    ==> (#[trigger] instances@[i]@[j]).wf(),
        ensures
            r.proof@ == proof@,
            r.instances@ == spec_instance_bytes(instances@[0].deep_view()),
            r.instances@.len() % 32 == 0,
            r.vk@ == vk@,
            r.git_version@ == git_version@,
            r.wf(),
    {
        let encoded = serialize_instances(instances);
        InnerProof { proof, instances: encoded, vk, git_version }
    }

    /// Build the envelope from a proof artifact and the raw verifying key.
    pub fn from_snark(snark: Snark, vk: Vec<u8>, git_version: String) -> (r: InnerProof)
        requires
            snark@.instances.len() == 1,
            snark.wf(),
        ensures
            r.proof@ == snark@.proof,
            r.instances@ == spec_instance_bytes(snark@.instances[0]),
            r.instances@.len() % 32 == 0,
            r.vk@ == vk@,
            r.git_version@ == git_version@,
            r.wf(),
    {
        let encoded = serialize_instances(&snark.instances);
        proof {
            assert(snark.instances@[0].deep_view() == snark@.instances[0]);
        }
        InnerProof { proof: snark.proof, instances: encoded, vk, git_version }
    }

    /// Decode the public values back into their single column.
    ///
    /// Rejected exactly when the stored bytes are no whole number of
    /// canonical field elements.
    pub fn instances(&self) -> (r: Option<Vec<Vec<Fr>>>)
        ensures
            r is Some <==> self.wf(),
            r is Some ==> r->0@.len() == 1 && r->0@[0].deep_view() == spec_instances_of_bytes(
                self.instances@,
            ),
    {
        match deserialize_instances(&self.instances) {
            Some(column) => {
                let mut wrapped: Vec<Vec<Fr>> = Vec::new();
                wrapped.push(column);
                Some(wrapped)
            },
            None => None,
        }
    }

    /// The raw proof bytes.
    pub fn proof_bytes(&self) -> (r: &Vec<u8>)
        ensures
            r@ == self.proof@,
    {
        &self.proof
    }

    /// The raw bytes of the verifying key.
    pub fn raw_vk(&self) -> (r: &Vec<u8>)
        ensures
            r@ == self.vk@,
    {
        &self.vk
    }

    /// What dumping this envelope writes under the given file name: the
    /// raw verifying key beside the JSON envelope.
    pub fn dump(&self, dir: &str, filename: &str) -> (r: DumpPlan)
        ensures
            r.files@.len() == 1,
            r.files@[0].path@ == dir@ + "/"@ + "vk_"@ + filename@ + ".vkey"@,
            r.files@[0].data@ == self.vk@,
            r.envelope_path@ == dir@ + "/full_proof_"@ + filename@ + ".json"@,
    {
        let mut path = String::from_str(dir);
        path.append("/");
        let file = vk_filename(filename);
        path.append(file.as_str());
        let mut files: Vec<DumpArtifact> = Vec::new();
        files.push(DumpArtifact { path, data: self.vk.clone() });
        DumpPlan { files, envelope_path: dump_proof_path(dir, filename) }
    }

    /// The calldata that verifies this proof on-chain: the encoded public
    /// values followed by the raw proof bytes, with no length prefix.
    pub fn verification_calldata(&self) -> (r: Vec<u8>)
        ensures
            r@ == self.instances@ + self.proof@,
    {
        let mut r = self.instances.clone();
        let mut tail = self.proof.clone();
        r.append(&mut tail);
        r
    }
}

/// One file a dump writes: its path and its raw contents.
pub struct DumpArtifact {
    pub path: String,
    pub data: Vec<u8>,
}

/// What dumping an envelope writes: the raw side files, and the path under
/// which the caller serializes and writes the JSON envelope itself.
pub struct DumpPlan {
    pub files: Vec<DumpArtifact>,
    pub envelope_path: String,
}

/// An EVM-verifiable proof: the envelope together with the instance count
/// layout the verifier contract was generated for.
pub struct EvmProof {
    pub proof: InnerProof,
    pub num_instance: Vec<usize>,
}

impl EvmProof {
    /// Wrap raw proof bytes and public values for EVM verification.
    pub fn new(
        proof: Vec<u8>,
        instances: &Vec<Vec<Fr>>,
        num_instance: Vec<usize>,
        vk: Vec<u8>,
        git_version: String,
    ) -> (r: EvmProof)
        requires
            instances@.len() == 1,
            forall|i: int, j: int|
                0 <= i < instances@.len() && 0 <= j < instances@[i]@.len()
                    ==> (#[trigger] instances@[i]@[j]).wf(),
        ensures
            r.proof.proof@ == proof@,
            r.proof.instances@ == spec_instance_bytes(instances@[0].deep_view()),
            r.proof.vk@ == vk@,
            r.proof.wf(),
            r.num_instance@ == num_instance@,
    {
        let inner = InnerProof::new(proof, instances, vk, git_version);
        EvmProof { proof: inner, num_instance }
    }

    /// The file name this proof is dumped under.
    pub fn dump_filename(name: &str) -> (r: String)
        ensures
            r@ == "evm_"@ + name@,
    {
        let mut r = String::from_str("evm_");
        r.append(name);
        r
    }

    /// What dumping this proof writes under the given artifact name: the
    /// raw verifying key beside the JSON envelope, both under the
    /// EVM-route file name.
    pub fn dump(&self, dir: &str, name: &str) -> (r: DumpPlan)
        ensures
            r.files@.len() == 1,
            r.files@[0].path@ == dir@ + "/"@ + "vk_"@ + ("evm_"@ + name@) + ".vkey"@,
            r.files@[0].data@ == self.proof.vk@,
            r.envelope_path@ == dir@ + "/full_proof_"@ + ("evm_"@ + name@) + ".json"@,
    {
        let filename = Self::dump_filename(name);
        self.proof.dump(dir, filename.as_str())
    }
}

/// The path of a dumped proof: `{dir}/full_proof_{filename}.json`.
pub fn dump_proof_path(dir: &str, filename: &str) -> (r: String)
    ensures
        r@ == dir@ + "/full_proof_"@ + filename@ + ".json"@,
{
    let mut r = String::from_str(dir);
    r.append("/full_proof_");
    r.append(filename);
    r.append(".json");
    r
}

/// The file name a verifying key is dumped under: `vk_{filename}.vkey`.
pub fn vk_filename(filename: &str) -> (r: String)
    ensures
        r@ == "vk_"@ + filename@ + ".vkey"@,
{
    let mut r = String::from_str("vk_");
    r.append(filename);
    r.append(".vkey");
    r
}

} // verus!
