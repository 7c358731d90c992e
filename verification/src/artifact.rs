//! Circuit descriptors and proof artifacts. An artifact travels as a
//! length-prefixed byte blob and can be deserialized only against the
//! descriptor that produced it: a count or structure mismatch is an error,
//! never a silent success.
use vstd::prelude::*;

verus! {

use vstd::bytes::{spec_u64_from_le_bytes, spec_u64_to_le_bytes, u64_from_le_bytes, u64_to_le_bytes};
use vstd::slice::slice_subrange;
use crate::FIELD_ORDER;
use crate::errors::DeserializationError;

/// The compiled, immutable description of an arithmetic circuit: how many
/// input slots it has, the length of its public-input vector, its
/// verifying-key digest, and the digest's capped commitment values.
pub struct CircuitDescriptor {
    pub num_slots: usize,
    pub public_inputs_len: usize,
    pub vk_digest: Vec<u64>,
    pub commitment_cap: Vec<u64>,
}

impl CircuitDescriptor {
    /// Digest and cap entries are field elements; the public-input count
    /// must survive the 8-byte length prefix.
    pub open spec fn wf(self) -> bool {
        &&& forall|i: int|
            0 <= i < self.vk_digest@.len() ==> (#[trigger] self.vk_digest@[i]) < FIELD_ORDER
        &&& forall|i: int|
            0 <= i < self.commitment_cap@.len() ==> (#[trigger] self.commitment_cap@[i])
                < FIELD_ORDER
        &&& self.public_inputs_len < 0x2000_0000_0000_0000
    }
}

/// An opaque serialized proof plus its declared public inputs. Produced by
/// one proving call, consumed exactly once, never mutated.
#[derive(Debug, PartialEq, Eq)]
pub struct ProofArtifact {
    pub public_inputs: Vec<u64>,
    pub proof_bytes: Vec<u8>,
}

impl ProofArtifact {
    pub open spec fn wf(self) -> bool {
        forall|i: int|
            0 <= i < self.public_inputs@.len() ==> (#[trigger] self.public_inputs@[i])
                < FIELD_ORDER
    }

    /// An artifact matches a descriptor when it declares exactly the
    /// descriptor's public-input schema.
    pub open spec fn matches_schema(self, d: CircuitDescriptor) -> bool {
        self.public_inputs@.len() == d.public_inputs_len
    }
}

/// The encoded form: an 8-byte little-endian public-input count, each public
/// input as 8 little-endian bytes, then the opaque proof bytes.
pub open spec fn encoded_artifact(pis: Seq<u64>, proof: Seq<u8>) -> Seq<u8> {
    spec_u64_to_le_bytes(pis.len() as u64) + encoded_inputs(pis) + proof
}

pub open spec fn encoded_inputs(pis: Seq<u64>) -> Seq<u8>
    decreases pis.len(),
{
    if pis.len() == 0 {
        Seq::empty()
    } else {
        spec_u64_to_le_bytes(pis[0]) + encoded_inputs(pis.drop_first())
    }
}

pub proof fn lemma_encoded_inputs_len(pis: Seq<u64>)
    ensures
        encoded_inputs(pis).len() == 8 * pis.len(),
    decreases pis.len(),
{
    vstd::bytes::lemma_auto_spec_u64_to_from_le_bytes();
    if pis.len() > 0 {
        lemma_encoded_inputs_len(pis.drop_first());
    }
}

/// Serializes an artifact: length prefix, public inputs, proof blob.
pub fn artifact_to_bytes(a: &ProofArtifact) -> (r: Vec<u8>)
    requires
        a.public_inputs@.len() < 0x2000_0000_0000_0000,
    ensures
        r@ == encoded_artifact(a.public_inputs@, a.proof_bytes@),
{
    proof {
        vstd::bytes::lemma_auto_spec_u64_to_from_le_bytes();
    }
    let mut out: Vec<u8> = u64_to_le_bytes(a.public_inputs.len() as u64);
    let ghost prefix = out@;
    let mut i: usize = 0;
    proof {
        lemma_encoded_inputs_len(a.public_inputs@);
        assert(out@ =~= prefix + encoded_inputs(a.public_inputs@).take(0));
    }
    while i < a.public_inputs.len()
        invariant
            i <= a.public_inputs@.len(),
            prefix == spec_u64_to_le_bytes(a.public_inputs@.len() as u64),
            a.public_inputs@.len() < 0x2000_0000_0000_0000,
            out@ == prefix + encoded_inputs(a.public_inputs@).take(8 * i as int),
            encoded_inputs(a.public_inputs@).len() == 8 * a.public_inputs@.len(),
        decreases a.public_inputs@.len() - i,
    {
        let mut piece = u64_to_le_bytes(a.public_inputs[i]);
        out.append(&mut piece);
        proof {
            lemma_encoded_inputs_skip_take(a.public_inputs@, i as int);
            assert(out@ =~= prefix + encoded_inputs(a.public_inputs@).take(8 * (i + 1)));
        }
        i += 1;
    }
    let mut proof_part: Vec<u8> = Vec::new();
    let mut j: usize = 0;
    while j < a.proof_bytes.len()
        invariant
            j <= a.proof_bytes@.len(),
            proof_part@ == a.proof_bytes@.take(j as int),
        decreases a.proof_bytes@.len() - j,
    {
        proof_part.push(a.proof_bytes[j]);
        proof {
            assert(proof_part@ =~= a.proof_bytes@.take(j + 1));
        }
        j += 1;
    }
    proof {
        assert(proof_part@ =~= a.proof_bytes@);
        lemma_encoded_inputs_len(a.public_inputs@);
        assert(encoded_inputs(a.public_inputs@).take(8 * a.public_inputs@.len() as int)
            =~= encoded_inputs(a.public_inputs@));
    }
    out.append(&mut proof_part);
    proof {
        assert(out@ =~= encoded_artifact(a.public_inputs@, a.proof_bytes@));
    }
    out
}

/// The public inputs encoded at the front of `bytes`, `n` entries of 8
/// bytes each.
pub open spec fn decoded_inputs(bytes: Seq<u8>, n: nat) -> Seq<u64> {
    Seq::new(n, |i: int| spec_u64_from_le_bytes(bytes.subrange(8 * i, 8 * i + 8)))
}

/// The exact result of deserializing an artifact against a schema length:
/// the byte length and structure must match, and every public input must be
/// a field element.
pub open spec fn decode_artifact(bytes: Seq<u8>, schema_len: nat) -> Result<
    (Seq<u64>, Seq<u8>),
    DeserializationError,
> {
    if bytes.len() < 8 {
        Err(DeserializationError::TruncatedHeader)
    } else {
        let n = spec_u64_from_le_bytes(bytes.take(8)) as nat;
        if n != schema_len {
            Err(DeserializationError::WrongInputCount)
        } else if bytes.len() < 8 + 8 * n {
            Err(DeserializationError::TruncatedInputs)
        } else {
            let pis = decoded_inputs(bytes.skip(8), n);
            if exists|i: int| 0 <= i < n && pis[i] >= FIELD_ORDER {
                Err(DeserializationError::ValueOutOfField)
            } else {
                Ok((pis, bytes.skip(8 + 8 * n as int)))
            }
        }
    }
}

/// Deserializes a proof artifact against `d`'s public-input schema.
pub fn artifact_from_bytes(bytes: &Vec<u8>, d: &CircuitDescriptor) -> (r: Result<
    ProofArtifact,
    DeserializationError,
>)
    requires
        d.wf(),
    ensures
        match decode_artifact(bytes@, d.public_inputs_len as nat) {
            Ok(parts) => {
                &&& r is Ok
                &&& r->Ok_0.public_inputs@ == parts.0
                &&& r->Ok_0.proof_bytes@ == parts.1
                &&& r->Ok_0.wf()
                &&& r->Ok_0.matches_schema(*d)
            },
            Err(e) => r == Err::<ProofArtifact, DeserializationError>(e),
        },
{
    proof {
        vstd::bytes::lemma_auto_spec_u64_to_from_le_bytes();
    }
    if bytes.len() < 8 {
        return Err(DeserializationError::TruncatedHeader);
    }
    let header = slice_subrange(bytes.as_slice(), 0, 8);
    proof {
        assert(header@ =~= bytes@.take(8));
    }
    let n64 = u64_from_le_bytes(header);
    if n64 != d.public_inputs_len as u64 {
        return Err(DeserializationError::WrongInputCount);
    }
    let n = d.public_inputs_len;
    if ((bytes.len() - 8) / 8) < n {
        proof {
            assert(bytes@.len() < 8 + 8 * (n as nat));
        }
        return Err(DeserializationError::TruncatedInputs);
    }
    proof {
        assert(bytes@.len() >= 8 + 8 * (n as nat));
    }
    let ghost pis_spec = decoded_inputs(bytes@.skip(8), n as nat);
    let mut pis: Vec<u64> = Vec::new();
    let mut i: usize = 0;
    while i < n
        invariant
            i <= n,
            n == d.public_inputs_len,
            n < 0x2000_0000_0000_0000,
            bytes@.len() >= 8,
            bytes@.len() >= 8 + 8 * (n as nat),
            spec_u64_from_le_bytes(bytes@.take(8)) == n as u64,
            pis_spec == decoded_inputs(bytes@.skip(8), n as nat),
            pis@.len() == i,
            forall|k: int| 0 <= k < i ==> pis@[k] == pis_spec[k] && pis@[k] < FIELD_ORDER,
        decreases n - i,
    {
        let avail = bytes.len();
        proof {
            assert(8 + 8 * (i as int) + 8 <= avail as int);
        }
        let off = 8 + 8 * i;
        let piece = slice_subrange(bytes.as_slice(), off, off + 8);
        let v = u64_from_le_bytes(piece);
        proof {
            assert(piece@ =~= bytes@.skip(8).subrange(8 * i as int, 8 * i as int + 8));
        }
        if v >= FIELD_ORDER {
            proof {
                assert(pis_spec[i as int] >= FIELD_ORDER);
            }
            return Err(DeserializationError::ValueOutOfField);
        }
        pis.push(v);
        proof {
            assert(v == pis_spec[i as int]);
            assert(pis@[i as int] == v);
            assert(forall|k: int| 0 <= k < i ==> pis@[k] == pis_spec[k] && pis@[k] < FIELD_ORDER);
        }
        i += 1;
    }
    let proof_bytes_slice = slice_subrange(bytes.as_slice(), 8 + 8 * n, bytes.len());
    let proof_bytes = vstd::slice::slice_to_vec(proof_bytes_slice);
    proof {
        assert(proof_bytes@ =~= bytes@.skip(8 + 8 * (n as int)));
        assert(pis@ =~= pis_spec);
    }
    Ok(ProofArtifact { public_inputs: pis, proof_bytes })
}

/// Serializing an artifact and deserializing against the same schema gives
/// the artifact back: the encoding is lossless under its own descriptor.
pub proof fn lemma_artifact_round_trip(pis: Seq<u64>, proof: Seq<u8>)
    requires
        pis.len() < 0x2000_0000_0000_0000,
        forall|i: int| 0 <= i < pis.len() ==> (#[trigger] pis[i]) < FIELD_ORDER,
    ensures
        decode_artifact(encoded_artifact(pis, proof), pis.len()) == Ok::<
            (Seq<u64>, Seq<u8>),
            DeserializationError,
        >((pis, proof)),
{
    vstd::bytes::lemma_auto_spec_u64_to_from_le_bytes();
    lemma_encoded_inputs_len(pis);
    let enc = encoded_artifact(pis, proof);
    assert(enc.take(8) =~= spec_u64_to_le_bytes(pis.len() as u64));
    assert(spec_u64_from_le_bytes(enc.take(8)) == pis.len());
    assert(enc.len() == 8 + 8 * pis.len() + proof.len());
    let body = enc.skip(8);
    assert(body =~= encoded_inputs(pis) + proof);
    assert forall|i: int| 0 <= i < pis.len() implies decoded_inputs(body, pis.len())[i]
        == pis[i] by {
        lemma_encoded_inputs_skip_take(pis, i);
        assert(body.subrange(8 * i, 8 * i + 8) =~= encoded_inputs(pis).take(8 * (i + 1)).skip(
            8 * i,
        ));
        assert(encoded_inputs(pis).take(8 * (i + 1)).skip(8 * i) =~= spec_u64_to_le_bytes(pis[i]));
    }
    assert(decoded_inputs(body, pis.len()) =~= pis);
    assert(enc.skip(8 + 8 * pis.len() as int) =~= proof);
}

/// Deserializing against any other schema length fails: cross-descriptor
/// deserialization is refused, never silently accepted.
pub proof fn lemma_cross_schema_fails(pis: Seq<u64>, proof: Seq<u8>, other: nat)
    requires
        pis.len() < 0x2000_0000_0000_0000,
        other != pis.len(),
    ensures
        decode_artifact(encoded_artifact(pis, proof), other) is Err,
{
    vstd::bytes::lemma_auto_spec_u64_to_from_le_bytes();
    lemma_encoded_inputs_len(pis);
    let enc = encoded_artifact(pis, proof);
    assert(enc.take(8) =~= spec_u64_to_le_bytes(pis.len() as u64));
    assert(spec_u64_from_le_bytes(enc.take(8)) == pis.len());
}

/// Taking one more input extends the encoded prefix by that input's bytes.
pub proof fn lemma_encoded_inputs_skip_take(pis: Seq<u64>, i: int)
    requires
        0 <= i < pis.len(),
    ensures
        encoded_inputs(pis).take(8 * (i + 1)) == encoded_inputs(pis).take(8 * i)
            + spec_u64_to_le_bytes(pis[i]),
    decreases i,
{
    vstd::bytes::lemma_auto_spec_u64_to_from_le_bytes();
    lemma_encoded_inputs_len(pis);
    if i == 0 {
        lemma_encoded_inputs_len(pis.drop_first());
        assert(encoded_inputs(pis) == spec_u64_to_le_bytes(pis[0]) + encoded_inputs(
            pis.drop_first(),
        ));
        assert(encoded_inputs(pis).take(0) =~= Seq::<u8>::empty());
        assert(encoded_inputs(pis).take(8) =~= spec_u64_to_le_bytes(pis[0]));
    } else {
        lemma_encoded_inputs_skip_take(pis.drop_first(), i - 1);
        lemma_encoded_inputs_len(pis.drop_first());
        assert(pis.drop_first()[i - 1] == pis[i]);
        assert(encoded_inputs(pis) == spec_u64_to_le_bytes(pis[0]) + encoded_inputs(
            pis.drop_first(),
        ));
        assert(encoded_inputs(pis).take(8 * (i + 1)) =~= spec_u64_to_le_bytes(pis[0])
            + encoded_inputs(pis.drop_first()).take(8 * i));
        assert(encoded_inputs(pis).take(8 * i) =~= spec_u64_to_le_bytes(pis[0]) + encoded_inputs(
            pis.drop_first(),
        ).take(8 * (i - 1)));
        assert(encoded_inputs(pis).take(8 * i) + spec_u64_to_le_bytes(pis[i])
            =~= spec_u64_to_le_bytes(pis[0]) + (encoded_inputs(pis.drop_first()).take(8 * (i - 1))
            + spec_u64_to_le_bytes(pis.drop_first()[i - 1])));
    }
}

} // verus!
