//! The generic two-child proof combiner: deserializes two sibling proofs
//! against the same inner descriptor, embeds their public inputs and the
//! inner descriptor's verifier identity (digest and commitment cap) into
//! the parent circuit's witness, and hands the witness to the proving
//! engine. Binding the verifier identity is what makes the parent proof say
//! "these children came from this verifying key", not merely "these bytes
//! have the right shape".
use vstd::prelude::*;

verus! {

use crate::artifact::{artifact_from_bytes, decode_artifact, CircuitDescriptor, ProofArtifact};
use crate::errors::{BindingError, CombineError, ProvingError};
use crate::witness::{assign_spec, lemma_set_targets_pointwise, can_set, WitnessAssignment};

/// The parent circuit's slots for one embedded child proof: one slot per
/// public input of the child.
pub struct ProofWithPisTargets {
    pub public_inputs: Vec<usize>,
}

/// The parent circuit's slots for the inner circuit's verifier identity.
pub struct VerifierCircuitTargets {
    pub constants_sigmas_cap: Vec<usize>,
    pub circuit_digest: Vec<usize>,
}

/// The commitment-mapper parent circuit's embedded-proof slots.
pub struct CommitmentMapperInnerCircuitTargets {
    pub proof1: ProofWithPisTargets,
    pub proof2: ProofWithPisTargets,
    pub verifier_circuit_target: VerifierCircuitTargets,
}

/// The balance-tree parent circuit's embedded-proof slots.
pub struct BalanceInnerCircuitTargets {
    pub proof1: ProofWithPisTargets,
    pub proof2: ProofWithPisTargets,
    pub verifier_circuit_target: VerifierCircuitTargets,
}

/// A fresh parent witness: every slot open.
pub open spec fn empty_witness(num_slots: nat) -> Seq<Option<u64>> {
    Seq::new(num_slots, |i: int| None::<u64>)
}

/// One assignment step of plain field values inside a result chain.
pub open spec fn set_u64s_step(
    w: Result<Seq<Option<u64>>, BindingError>,
    idxs: Seq<usize>,
    vals: Seq<u64>,
) -> Result<Seq<Option<u64>>, BindingError> {
    match w {
        Err(e) => Err(e),
        Ok(w0) => assign_spec(w0, idxs, vals),
    }
}

/// The exact result of one combine call: both children must deserialize
/// against the inner descriptor, then both public-input vectors and the
/// inner verifier identity are bound into the parent witness.
pub open spec fn combine_spec(
    p1: Seq<u8>,
    p2: Seq<u8>,
    inner: CircuitDescriptor,
    t1: Seq<usize>,
    t2: Seq<usize>,
    cap_slots: Seq<usize>,
    digest_slots: Seq<usize>,
    parent: CircuitDescriptor,
) -> Result<Seq<Option<u64>>, CombineError> {
    match decode_artifact(p1, inner.public_inputs_len as nat) {
        Err(e) => Err(CombineError::Deserialization(e)),
        Ok(a1) => match decode_artifact(p2, inner.public_inputs_len as nat) {
            Err(e) => Err(CombineError::Deserialization(e)),
            Ok(a2) => {
                let r = set_u64s_step(Ok(empty_witness(parent.num_slots as nat)), t1, a1.0);
                let r = set_u64s_step(r, t2, a2.0);
                let r = set_u64s_step(r, cap_slots, inner.commitment_cap@);
                let r = set_u64s_step(r, digest_slots, inner.vk_digest@);
                match r {
                    Ok(w) => Ok(w),
                    Err(e) => Err(CombineError::Binding(e)),
                }
            },
        },
    }
}

/// Deserializes two sibling proofs against the inner descriptor and builds
/// the parent circuit's witness: each child's public inputs in its embedded
/// proof slots, and the inner descriptor's commitment cap and verifying-key
/// digest in the verifier-identity slots. The proving engine consumes the
/// returned witness; a proving failure is fatal for the call and the child
/// proofs must be regenerated.
pub fn handle_generic_inner_level_proof(
    proof1_bytes: Vec<u8>,
    proof2_bytes: Vec<u8>,
    inner_circuit_data: &CircuitDescriptor,
    proof1_target: &ProofWithPisTargets,
    proof2_target: &ProofWithPisTargets,
    verifier_circuit_target: &VerifierCircuitTargets,
    circuit_data: &CircuitDescriptor,
) -> (r: Result<WitnessAssignment, CombineError>)
    requires
        inner_circuit_data.wf(),
        circuit_data.wf(),
    ensures
        match combine_spec(
            proof1_bytes@,
            proof2_bytes@,
            *inner_circuit_data,
            proof1_target.public_inputs@,
            proof2_target.public_inputs@,
            verifier_circuit_target.constants_sigmas_cap@,
            verifier_circuit_target.circuit_digest@,
            *circuit_data,
        ) {
            Ok(w) => r is Ok && r->Ok_0.vals@ == w && r->Ok_0.wf(),
            Err(e) => r == Err::<WitnessAssignment, CombineError>(e),
        },
{
    let inner_proof1 = match artifact_from_bytes(&proof1_bytes, inner_circuit_data) {
        Ok(a) => a,
        Err(e) => {
            return Err(CombineError::Deserialization(e));
        },
    };
    let inner_proof2 = match artifact_from_bytes(&proof2_bytes, inner_circuit_data) {
        Ok(a) => a,
        Err(e) => {
            return Err(CombineError::Deserialization(e));
        },
    };
    let mut pw = WitnessAssignment::new(circuit_data.num_slots);
    proof {
        assert(pw.vals@ =~= empty_witness(circuit_data.num_slots as nat));
    }
    if let Err(e) = pw.assign(&proof1_target.public_inputs, &inner_proof1.public_inputs) {
        return Err(CombineError::Binding(e));
    }
    if let Err(e) = pw.assign(&proof2_target.public_inputs, &inner_proof2.public_inputs) {
        return Err(CombineError::Binding(e));
    }
    if let Err(e) = pw.assign(
        &verifier_circuit_target.constants_sigmas_cap,
        &inner_circuit_data.commitment_cap,
    ) {
        return Err(CombineError::Binding(e));
    }
    if let Err(e) = pw.assign(&verifier_circuit_target.circuit_digest, &inner_circuit_data.vk_digest)
        {
        return Err(CombineError::Binding(e));
    }
    Ok(pw)
}

/// Combines two commitment-mapper sibling proofs: the same mechanics as the
/// generic combiner, with this tree's slot layout.
pub fn handle_commitment_mapper_inner_level_proof(
    proof1_bytes: Vec<u8>,
    proof2_bytes: Vec<u8>,
    inner_circuit_data: &CircuitDescriptor,
    inner_circuit_targets: &CommitmentMapperInnerCircuitTargets,
    circuit_data: &CircuitDescriptor,
) -> (r: Result<WitnessAssignment, CombineError>)
    requires
        inner_circuit_data.wf(),
        circuit_data.wf(),
    ensures
        match combine_spec(
            proof1_bytes@,
            proof2_bytes@,
            *inner_circuit_data,
            inner_circuit_targets.proof1.public_inputs@,
            inner_circuit_targets.proof2.public_inputs@,
            inner_circuit_targets.verifier_circuit_target.constants_sigmas_cap@,
            inner_circuit_targets.verifier_circuit_target.circuit_digest@,
            *circuit_data,
        ) {
            Ok(w) => r is Ok && r->Ok_0.vals@ == w && r->Ok_0.wf(),
            Err(e) => r == Err::<WitnessAssignment, CombineError>(e),
        },
{
    handle_generic_inner_level_proof(
        proof1_bytes,
        proof2_bytes,
        inner_circuit_data,
        &inner_circuit_targets.proof1,
        &inner_circuit_targets.proof2,
        &inner_circuit_targets.verifier_circuit_target,
        circuit_data,
    )
}

/// Combines two balance-tree sibling proofs: the same mechanics as the
/// generic combiner, with this tree's slot layout.
pub fn handle_balance_inner_level_proof(
    proof1_bytes: Vec<u8>,
    proof2_bytes: Vec<u8>,
    inner_circuit_data: &CircuitDescriptor,
    inner_circuit_targets: &BalanceInnerCircuitTargets,
    circuit_data: &CircuitDescriptor,
) -> (r: Result<WitnessAssignment, CombineError>)
    requires
        inner_circuit_data.wf(),
        circuit_data.wf(),
    ensures
        match combine_spec(
            proof1_bytes@,
            proof2_bytes@,
            *inner_circuit_data,
            inner_circuit_targets.proof1.public_inputs@,
            inner_circuit_targets.proof2.public_inputs@,
            inner_circuit_targets.verifier_circuit_target.constants_sigmas_cap@,
            inner_circuit_targets.verifier_circuit_target.circuit_digest@,
            *circuit_data,
        ) {
            Ok(w) => r is Ok && r->Ok_0.vals@ == w && r->Ok_0.wf(),
            Err(e) => r == Err::<WitnessAssignment, CombineError>(e),
        },
{
    handle_generic_inner_level_proof(
        proof1_bytes,
        proof2_bytes,
        inner_circuit_data,
        &inner_circuit_targets.proof1,
        &inner_circuit_targets.proof2,
        &inner_circuit_targets.verifier_circuit_target,
        circuit_data,
    )
}

/// Validates what the proving engine returned for an assembled parent
/// witness: a proving failure propagates fatally, and a returned artifact
/// must declare exactly the parent descriptor's public-input schema.
pub fn accept_parent_proof(
    engine_result: Result<ProofArtifact, ProvingError>,
    circuit_data: &CircuitDescriptor,
) -> (r: Result<ProofArtifact, CombineError>)
    ensures
        match engine_result {
            Err(pe) => r == Err::<ProofArtifact, CombineError>(CombineError::Proving(pe)),
            Ok(a) => if a.public_inputs@.len() == circuit_data.public_inputs_len {
                r is Ok && r->Ok_0 == a
            } else {
                r == Err::<ProofArtifact, CombineError>(
                    CombineError::Deserialization(
                        crate::errors::DeserializationError::WrongInputCount,
                    ),
                )
            },
        },
{
    match engine_result {
        Err(pe) => Err(CombineError::Proving(pe)),
        Ok(a) => {
            if a.public_inputs.len() != circuit_data.public_inputs_len {
                return Err(
                    CombineError::Deserialization(
                        crate::errors::DeserializationError::WrongInputCount,
                    ),
                );
            }
            Ok(a)
        },
    }
}

/// A successful combine pins the verifier-identity slots: the parent
/// witness holds exactly the inner descriptor's commitment cap and
/// verifying-key digest, so the parent circuit constrains the children's
/// origin, not only their shape.
pub proof fn lemma_combine_binds_verifier_identity(
    p1: Seq<u8>,
    p2: Seq<u8>,
    inner: CircuitDescriptor,
    t1: Seq<usize>,
    t2: Seq<usize>,
    cap_slots: Seq<usize>,
    digest_slots: Seq<usize>,
    parent: CircuitDescriptor,
)
    requires
        combine_spec(p1, p2, inner, t1, t2, cap_slots, digest_slots, parent) is Ok,
        cap_slots.len() == inner.commitment_cap@.len(),
        digest_slots.len() == inner.vk_digest@.len(),
    ensures
        ({
            let w = combine_spec(p1, p2, inner, t1, t2, cap_slots, digest_slots, parent)->Ok_0;
            &&& forall|j: int|
                0 <= j < digest_slots.len() ==> w[digest_slots[j] as int] == Some(
                    inner.vk_digest@[j],
                )
            &&& forall|j: int|
                0 <= j < cap_slots.len() ==> w[cap_slots[j] as int] == Some(
                    inner.commitment_cap@[j],
                )
        }),
{
    let a1 = decode_artifact(p1, inner.public_inputs_len as nat)->Ok_0;
    let a2 = decode_artifact(p2, inner.public_inputs_len as nat)->Ok_0;
    let w0 = empty_witness(parent.num_slots as nat);
    let r1 = set_u64s_step(Ok(w0), t1, a1.0);
    let r2 = set_u64s_step(r1, t2, a2.0);
    let r3 = set_u64s_step(r2, cap_slots, inner.commitment_cap@);
    let r4 = set_u64s_step(r3, digest_slots, inner.vk_digest@);
    let w3 = r3->Ok_0;
    let w4 = r4->Ok_0;
    lemma_set_targets_pointwise(r2->Ok_0, cap_slots, inner.commitment_cap@);
    lemma_set_targets_pointwise(w3, digest_slots, inner.vk_digest@);
    assert(can_set(w3, digest_slots, inner.vk_digest@));
    assert forall|j: int| 0 <= j < cap_slots.len() implies w4[cap_slots[j] as int] == Some(
        inner.commitment_cap@[j],
    ) by {
        assert(w3[cap_slots[j] as int] == Some(inner.commitment_cap@[j]));
        assert forall|k: int| 0 <= k < digest_slots.len() implies digest_slots[k]
            != cap_slots[j] by {
            assert(w3[digest_slots[k] as int] is None);
        }
    }
}

/// Combining under inner descriptors whose verifying-key digests differ
/// yields parent witnesses that differ in a verifier-identity slot: a child
/// proof cannot silently pass as coming from another circuit.
pub proof fn lemma_combine_distinguishes_verifiers(
    p1: Seq<u8>,
    p2: Seq<u8>,
    q1: Seq<u8>,
    q2: Seq<u8>,
    inner_a: CircuitDescriptor,
    inner_b: CircuitDescriptor,
    t1: Seq<usize>,
    t2: Seq<usize>,
    cap_slots: Seq<usize>,
    digest_slots: Seq<usize>,
    parent: CircuitDescriptor,
    j: int,
)
    requires
        combine_spec(p1, p2, inner_a, t1, t2, cap_slots, digest_slots, parent) is Ok,
        combine_spec(q1, q2, inner_b, t1, t2, cap_slots, digest_slots, parent) is Ok,
        cap_slots.len() == inner_a.commitment_cap@.len(),
        cap_slots.len() == inner_b.commitment_cap@.len(),
        digest_slots.len() == inner_a.vk_digest@.len(),
        digest_slots.len() == inner_b.vk_digest@.len(),
        0 <= j < digest_slots.len(),
        inner_a.vk_digest@[j] != inner_b.vk_digest@[j],
    ensures
        combine_spec(p1, p2, inner_a, t1, t2, cap_slots, digest_slots, parent)->Ok_0
            != combine_spec(q1, q2, inner_b, t1, t2, cap_slots, digest_slots, parent)->Ok_0,
{
    lemma_combine_binds_verifier_identity(p1, p2, inner_a, t1, t2, cap_slots, digest_slots, parent);
    lemma_combine_binds_verifier_identity(q1, q2, inner_b, t1, t2, cap_slots, digest_slots, parent);
    let wa = combine_spec(p1, p2, inner_a, t1, t2, cap_slots, digest_slots, parent)->Ok_0;
    let wb = combine_spec(q1, q2, inner_b, t1, t2, cap_slots, digest_slots, parent)->Ok_0;
    assert(wa[digest_slots[j] as int] == Some(inner_a.vk_digest@[j]));
    assert(wb[digest_slots[j] as int] == Some(inner_b.vk_digest@[j]));
}

} // verus!
