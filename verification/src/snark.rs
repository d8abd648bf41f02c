//! The proof artifact passed between pipeline stages, and the canonical
//! byte encoding of its public values.
//!
//! A public value is one scalar field element, held internally in its
//! canonical little-endian 32-byte form and encoded big-endian for external
//! consumption: the encoder reverses each element and concatenates, the
//! decoder cuts the byte string into 32-byte chunks and reverses each back.

use vstd::prelude::*;
use crate::word::{be_val, rev_bytes, spec_bn254_modulus, bn254_modulus, be_lt, reverse_bytes, lemma_rev_involutive};

verus! {

/// One scalar field element of the proof system's native field, kept as its
/// canonical little-endian 32-byte representation.
#[derive(Clone, Debug)]
pub struct Fr {
    pub bytes: Vec<u8>,
}

impl View for Fr {
    type V = Seq<u8>;

    open spec fn view(&self) -> Seq<u8> {
        self.bytes@
    }
}

impl DeepView for Fr {
    type V = Seq<u8>;

    open spec fn deep_view(&self) -> Seq<u8> {
        self.bytes@
    }
}

/// Whether a little-endian byte string is the canonical representation of a
/// scalar: 32 bytes whose value lies below the field modulus.
pub open spec fn scalar_canonical(le: Seq<u8>) -> bool {
    le.len() == 32 && be_val(rev_bytes(le)) < be_val(spec_bn254_modulus())
}

impl Fr {
    /// Canonical representation invariant.
    pub open spec fn wf(self) -> bool {
        scalar_canonical(self@)
    }

    /// A copy of this element.
    pub fn dup(&self) -> (r: Fr)
        ensures
            r@ == self@,
    {
        Fr { bytes: self.bytes.clone() }
    }
}

/// Serialize a field element to its canonical 32 little-endian bytes.
pub fn serialize_fr(f: &Fr) -> (r: Vec<u8>)
    ensures
        r@ == f@,
{
    f.bytes.clone()
}

/// Rebuild a field element from its canonical little-endian bytes.
///
/// A buffer that is not the canonical form of any element is rejected.
pub fn deserialize_fr(buf: Vec<u8>) -> (r: Option<Fr>)
    ensures
        r is Some <==> scalar_canonical(buf@),
        r is Some ==> r->0@ == buf@ && r->0.wf(),
{
    if buf.len() != 32 {
        return None;
    }
    let be = reverse_bytes(&buf);
    let modulus = bn254_modulus();
    if be_lt(&be, &modulus) {
        Some(Fr { bytes: buf })
    } else {
        None
    }
}

/// Serialize each element of a vector of field elements.
pub fn serialize_fr_vec(v: &Vec<Fr>) -> (r: Vec<Vec<u8>>)
    ensures
        r.deep_view() == v.deep_view(),
{
    let n = v.len();
    let mut r: Vec<Vec<u8>> = Vec::new();
    let mut i: usize = 0;
    while i < n
        invariant
            0 <= i <= n,
            n == v@.len(),
            r@.len() == i,
            forall|k: int| 0 <= k < i ==> (#[trigger] r@[k])@ == v@[k]@,
        decreases n - i,
    {
        r.push(serialize_fr(&v[i]));
        i = i + 1;
    }
    proof {
        assert forall|k: int| 0 <= k < n implies r.deep_view()[k] == v.deep_view()[k] by {
            assert(r.deep_view()[k] =~= r@[k]@);
        }
        assert(r.deep_view() =~= v.deep_view());
    }
    r
}

/// Rebuild a vector of field elements from their canonical bytes.
///
/// Rejected as a whole when any buffer is no canonical element.
pub fn deserialize_fr_vec(buffers: Vec<Vec<u8>>) -> (r: Option<Vec<Fr>>)
    ensures
        r is Some <==> (forall|i: int|
            0 <= i < buffers@.len() ==> scalar_canonical(#[trigger] buffers@[i]@)),
        r is Some ==> r->0.deep_view() == buffers.deep_view(),
{
    let n = buffers.len();
    let mut r: Vec<Fr> = Vec::new();
    let mut i: usize = 0;
    while i < n
        invariant
            0 <= i <= n,
            n == buffers@.len(),
            r@.len() == i,
            forall|k: int| 0 <= k < i ==> scalar_canonical(#[trigger] buffers@[k]@),
            forall|k: int| 0 <= k < i ==> (#[trigger] r@[k])@ == buffers@[k]@,
        decreases n - i,
    {
        match deserialize_fr(buffers[i].clone()) {
            Some(f) => {
                r.push(f);
            },
            None => {
                return None;
            },
        }
        i = i + 1;
    }
    proof {
        assert forall|k: int| 0 <= k < n implies r.deep_view()[k] == buffers.deep_view()[k] by {
            assert(r.deep_view()[k] =~= r@[k]@);
            assert(buffers.deep_view()[k] =~= buffers@[k]@);
        }
        assert(r.deep_view() =~= buffers.deep_view());
    }
    Some(r)
}

/// Serialize a matrix of field elements, column by column.
pub fn serialize_fr_matrix(m: &Vec<Vec<Fr>>) -> (r: Vec<Vec<Vec<u8>>>)
    ensures
        r.deep_view() == m.deep_view(),
{
    let n = m.len();
    let mut r: Vec<Vec<Vec<u8>>> = Vec::new();
    let mut i: usize = 0;
    while i < n
        invariant
            0 <= i <= n,
            n == m@.len(),
            r@.len() == i,
            forall|k: int| 0 <= k < i ==> (#[trigger] r@[k]).deep_view() == m@[k].deep_view(),
        decreases n - i,
    {
        r.push(serialize_fr_vec(&m[i]));
        i = i + 1;
    }
    proof {
        assert(r.deep_view() =~= m.deep_view());
    }
    r
}

/// Rebuild a matrix of field elements from their canonical bytes.
///
/// Rejected as a whole when any buffer is no canonical element.
pub fn deserialize_fr_matrix(buffers: Vec<Vec<Vec<u8>>>) -> (r: Option<Vec<Vec<Fr>>>)
    ensures
        r is Some <==> (forall|i: int, j: int|
            0 <= i < buffers@.len() && 0 <= j < buffers@[i]@.len() ==> scalar_canonical(
                (#[trigger] buffers@[i]@[j])@,
            )),
        r is Some ==> r->0.deep_view() == buffers.deep_view(),
{
    let n = buffers.len();
    let mut r: Vec<Vec<Fr>> = Vec::new();
    let mut i: usize = 0;
    while i < n
        invariant
            0 <= i <= n,
            n == buffers@.len(),
            r@.len() == i,
            forall|k: int, j: int|
                0 <= k < i && 0 <= j < buffers@[k]@.len() ==> scalar_canonical(
                    (#[trigger] buffers@[k]@[j])@,
                ),
            forall|k: int| 0 <= k < i ==> (#[trigger] r@[k]).deep_view() == buffers@[k].deep_view(),
        decreases n - i,
    {
        match deserialize_fr_vec(buffers[i].clone()) {
            Some(col) => {
                r.push(col);
            },
            None => {
                return None;
            },
        }
        i = i + 1;
    }
    proof {
        assert(r.deep_view() =~= buffers.deep_view());
    }
    Some(r)
}

/// The proof artifact passed between pipeline stages: an opaque structural
/// protocol descriptor (in its serialized form), the raw proof bytes, and
/// the public values, one column of field elements.
///
/// Two artifacts expected to share a circuit structure are compared by
/// protocol equality; a mismatch is a fatal precondition failure.
pub struct Snark {
    pub protocol: Vec<u8>,
    pub proof: Vec<u8>,
    pub instances: Vec<Vec<Fr>>,
}

/// The mathematical content of a proof artifact.
pub ghost struct SnarkView {
    pub protocol: Seq<u8>,
    pub proof: Seq<u8>,
    pub instances: Seq<Seq<Seq<u8>>>,
}

impl View for Snark {
    type V = SnarkView;

    open spec fn view(&self) -> SnarkView {
        SnarkView {
            protocol: self.protocol@,
            proof: self.proof@,
            instances: self.instances.deep_view(),
        }
    }
}

impl DeepView for Snark {
    type V = SnarkView;

    open spec fn deep_view(&self) -> SnarkView {
        self.view()
    }
}

impl Snark {
    /// Every public value is a canonical field element.
    pub open spec fn wf(self) -> bool {
        forall|i: int, j: int|
            0 <= i < self.instances@.len() && 0 <= j < self.instances@[i]@.len()
                ==> (#[trigger] self.instances@[i]@[j]).wf()
    }

    /// A copy of this artifact.
    pub fn dup(&self) -> (r: Snark)
        ensures
            r@ == self@,
    {
        let mut instances: Vec<Vec<Fr>> = Vec::new();
        let n = self.instances.len();
        let mut i: usize = 0;
        while i < n
            invariant
                0 <= i <= n,
                n == self.instances@.len(),
                instances@.len() == i,
                forall|k: int|
                    0 <= k < i ==> (#[trigger] instances@[k]).deep_view()
                        == self.instances@[k].deep_view(),
            decreases n - i,
        {
            let col = &self.instances[i];
            let m = col.len();
            let mut out: Vec<Fr> = Vec::new();
            let mut j: usize = 0;
            while j < m
                invariant
                    0 <= j <= m,
                    m == col@.len(),
                    out@.len() == j,
                    forall|t: int| 0 <= t < j ==> (#[trigger] out@[t])@ == col@[t]@,
                decreases m - j,
            {
                out.push(col[j].dup());
                j = j + 1;
            }
            proof {
                assert(out.deep_view() =~= col.deep_view());
            }
            instances.push(out);
            i = i + 1;
        }
        proof {
            assert(instances.deep_view() =~= self.instances.deep_view());
        }
        Snark { protocol: self.protocol.clone(), proof: self.proof.clone(), instances }
    }
}

/// The encoding of one instance column: each element big-endian, concatenated.
pub open spec fn spec_instance_bytes(col: Seq<Seq<u8>>) -> Seq<u8>
    decreases col.len(),
{
    if col.len() == 0 {
        Seq::<u8>::empty()
    } else {
        spec_instance_bytes(col.drop_last()) + rev_bytes(col.last())
    }
}

/// The decoding of an instance byte string: 32-byte chunks, each reversed.
pub open spec fn spec_instances_of_bytes(s: Seq<u8>) -> Seq<Seq<u8>> {
    Seq::new((s.len() / 32) as nat, |k: int| rev_bytes(s.subrange(32 * k, 32 * k + 32)))
}

/// Every element of `col` is 32 bytes wide.
pub open spec fn col_wf(col: Seq<Seq<u8>>) -> bool {
    forall|i: int| 0 <= i < col.len() ==> (#[trigger] col[i]).len() == 32
}

/// An encoded column is 32 bytes per element.
pub proof fn lemma_instance_bytes_len(col: Seq<Seq<u8>>)
    requires
        col_wf(col),
    ensures
        spec_instance_bytes(col).len() == 32 * col.len(),
    decreases col.len(),
{
    if col.len() > 0 {
        lemma_instance_bytes_len(col.drop_last());
    }
}

/// Decoding recovers exactly the elements that were encoded.
pub proof fn lemma_instances_round_trip(col: Seq<Seq<u8>>)
    requires
        col_wf(col),
    ensures
        spec_instances_of_bytes(spec_instance_bytes(col)) == col,
    decreases col.len(),
{
    lemma_instance_bytes_len(col);
    let s = spec_instance_bytes(col);
    if col.len() == 0 {
        assert(spec_instances_of_bytes(s) =~= col);
    } else {
        let head = col.drop_last();
        let sh = spec_instance_bytes(head);
        lemma_instances_round_trip(head);
        lemma_instance_bytes_len(head);
        assert(s == sh + rev_bytes(col.last()));
        assert(spec_instances_of_bytes(s).len() == col.len());
        assert forall|k: int| 0 <= k < col.len() implies spec_instances_of_bytes(s)[k] == col[k] by {
            if k < col.len() - 1 {
                assert(s.subrange(32 * k, 32 * k + 32) =~= sh.subrange(32 * k, 32 * k + 32));
                assert(spec_instances_of_bytes(sh)[k] == col[k]);
            } else {
                assert(s.subrange(32 * k, 32 * k + 32) =~= rev_bytes(col.last()));
                lemma_rev_involutive(col.last());
            }
        }
        assert(spec_instances_of_bytes(s) =~= col);
    }
}

/// Re-encoding a decoded byte string reproduces it byte for byte.
pub proof fn lemma_instance_bytes_of_decoded(s: Seq<u8>)
    requires
        s.len() % 32 == 0,
    ensures
        spec_instance_bytes(spec_instances_of_bytes(s)) == s,
    decreases s.len(),
{
    let col = spec_instances_of_bytes(s);
    if s.len() == 0 {
        assert(col =~= Seq::<Seq<u8>>::empty());
        assert(spec_instance_bytes(col) =~= s);
    } else {
        let n = s.len() as int;
        let prefix = s.subrange(0, n - 32);
        assert(prefix.len() % 32 == 0);
        lemma_instance_bytes_of_decoded(prefix);
        assert forall|k: int| 0 <= k < col.len() - 1 implies #[trigger] col[k]
            == spec_instances_of_bytes(prefix)[k] by {
            assert(s.subrange(32 * k, 32 * k + 32) =~= prefix.subrange(32 * k, 32 * k + 32));
        }
        assert(col.drop_last() =~= spec_instances_of_bytes(prefix));
        let last_k = col.len() - 1;
        assert(32 * last_k == n - 32);
        assert(col.last() == rev_bytes(s.subrange(n - 32, n)));
        lemma_rev_involutive(s.subrange(n - 32, n));
        assert(rev_bytes(col.last()) == s.subrange(n - 32, n));
        assert(spec_instance_bytes(col) == spec_instance_bytes(col.drop_last()) + rev_bytes(
            col.last(),
        ));
        assert(prefix + s.subrange(n - 32, n) =~= s);
    }
}

/// Encode one column of public values: each field element big-endian,
/// concatenated, with no length prefix.
pub fn serialize_instance(instance: &Vec<Fr>) -> (r: Vec<u8>)
    requires
        forall|i: int| 0 <= i < instance@.len() ==> (#[trigger] instance@[i]).wf(),
    ensures
        r@ == spec_instance_bytes(instance.deep_view()),
        r@.len() == 32 * instance@.len(),
        r@.len() % 32 == 0,
        col_wf_canonical(spec_instances_of_bytes(r@)),
{
    let dv = Ghost(instance.deep_view());
    proof {
        assert(dv@.len() == instance@.len());
        assert(col_wf(dv@));
    }
    let mut r: Vec<u8> = Vec::new();
    let n = instance.len();
    let mut i: usize = 0;
    while i < n
        invariant
            0 <= i <= n,
            n == instance@.len(),
            dv@ == instance.deep_view(),
            dv@.len() == n,
            col_wf(dv@),
            forall|k: int| 0 <= k < n ==> (#[trigger] instance@[k]).wf(),
            r@ == spec_instance_bytes(dv@.subrange(0, i as int)),
            r@.len() == 32 * i,
        decreases n - i,
    {
        let mut be = reverse_bytes(&instance[i].bytes);
        r.append(&mut be);
        proof {
            let pre = dv@.subrange(0, i as int);
            let cur = dv@.subrange(0, i + 1);
            assert(cur.drop_last() =~= pre);
            assert(cur.last() == dv@[i as int]);
            assert(dv@[i as int] == instance@[i as int]@);
        }
        i = i + 1;
    }
    proof {
        assert(dv@.subrange(0, n as int) =~= dv@);
        lemma_instances_round_trip(dv@);
        assert forall|k: int| 0 <= k < dv@.len() implies scalar_canonical(
            #[trigger] spec_instances_of_bytes(r@)[k],
        ) by {
            assert(dv@[k] == instance@[k]@);
        }
    }
    r
}

/// Encode the public values of an artifact with exactly one instance column.
pub fn serialize_instances(instances: &Vec<Vec<Fr>>) -> (r: Vec<u8>)
    requires
        instances@.len() == 1,
        forall|i: int, j: int|
            0 <= i < instances@.len() && 0 <= j < instances@[i]@.len()
                ==> (#[trigger] instances@[i]@[j]).wf(),
    ensures
        r@ == spec_instance_bytes(instances@[0].deep_view()),
        r@.len() == 32 * instances@[0]@.len(),
        r@.len() % 32 == 0,
        col_wf_canonical(spec_instances_of_bytes(r@)),
{
    serialize_instance(&instances[0])
}

/// Decode an instance byte string back into the single column of public
/// values it encodes: one canonical field element per 32-byte chunk.
///
/// A byte string whose length is not a whole number of chunks, or with a
/// chunk that is no canonical element, is rejected.
pub fn deserialize_instances(bytes: &Vec<u8>) -> (r: Option<Vec<Fr>>)
    ensures
        r is Some <==> bytes@.len() % 32 == 0 && col_wf_canonical(spec_instances_of_bytes(bytes@)),
        r is Some ==> r->0.deep_view() == spec_instances_of_bytes(bytes@),
        r is Some ==> forall|i: int| 0 <= i < r->0@.len() ==> (#[trigger] r->0@[i]).wf(),
{
    let n = bytes.len();
    if n % 32 != 0 {
        return None;
    }
    let m = n / 32;
    let mut out: Vec<Fr> = Vec::new();
    let mut k: usize = 0;
    while k < m
        invariant
            0 <= k <= m,
            n == bytes@.len(),
            n % 32 == 0,
            m == n / 32,
            out@.len() == k,
            forall|i: int| 0 <= i < k ==> (#[trigger] out@[i]).wf(),
            forall|i: int|
                0 <= i < k ==> (#[trigger] out@[i])@ == spec_instances_of_bytes(bytes@)[i],
        decreases m - k,
    {
        let mut le: Vec<u8> = Vec::new();
        let mut j: usize = 0;
        while j < 32
            invariant
                0 <= j <= 32,
                0 <= k < m,
                n == bytes@.len(),
                m == n / 32,
                le@.len() == j,
                forall|t: int| 0 <= t < j ==> le@[t] == bytes@[32 * (k as int) + 31 - t],
            decreases 32 - j,
        {
            le.push(bytes[32 * k + (31 - j)]);
            j = j + 1;
        }
        proof {
            assert(le@ =~= rev_bytes(bytes@.subrange(
                32 * (k as int),
                32 * (k as int) + 32,
            )));
        }
        let be = reverse_bytes(&le);
        let modulus = bn254_modulus();
        if !be_lt(&be, &modulus) {
            proof {
                lemma_rev_involutive(bytes@.subrange(32 * (k as int), 32 * (k as int) + 32));
                assert(!scalar_canonical(spec_instances_of_bytes(bytes@)[k as int]));
            }
            return None;
        }
        proof {
            lemma_rev_involutive(bytes@.subrange(32 * (k as int), 32 * (k as int) + 32));
        }
        out.push(Fr { bytes: le });
        k = k + 1;
    }
    proof {
        assert(out.deep_view() =~= spec_instances_of_bytes(bytes@));
    }
    Some(out)
}

/// Every chunk of a decoded column is a canonical element.
pub open spec fn col_wf_canonical(col: Seq<Seq<u8>>) -> bool {
    forall|i: int| 0 <= i < col.len() ==> scalar_canonical(#[trigger] col[i])
}

} // verus!
