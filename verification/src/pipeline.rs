//! The four-stage pairing-evaluation pipeline: precompute, Miller loop,
//! extension-field multiplication, final exponentiation. Each stage wraps a
//! trace-prover stage proof into a recursive circuit's witness through the
//! same embedding, tagged with its stage so the next stage can check it
//! consumes the right predecessor. The driver here is pure data flow; the
//! proving engine runs outside and hands its results back.
use vstd::prelude::*;

verus! {

use crate::artifact::{CircuitDescriptor, ProofArtifact};
use crate::combiner::{empty_witness, set_u64s_step};
use crate::errors::{BindingError, PipelineError, ProvingError};
use crate::numeric::{limbs_lt, limbs_value};
use crate::witness::WitnessAssignment;

/// The four ordered stages of one pairing evaluation.
#[derive(Clone, Copy, PartialEq, Eq, Structural, Debug)]
pub enum PipelineStage {
    Precompute,
    MillerLoop,
    Fp12Mul,
    FinalExponentiation,
}

/// The stage each stage's proof feeds; the final exponentiation is terminal.
pub open spec fn spec_next_stage(s: PipelineStage) -> Option<PipelineStage> {
    match s {
        PipelineStage::Precompute => Some(PipelineStage::MillerLoop),
        PipelineStage::MillerLoop => Some(PipelineStage::Fp12Mul),
        PipelineStage::Fp12Mul => Some(PipelineStage::FinalExponentiation),
        PipelineStage::FinalExponentiation => None,
    }
}

pub fn next_stage(s: PipelineStage) -> (r: Option<PipelineStage>)
    ensures
        r == spec_next_stage(s),
{
    match s {
        PipelineStage::Precompute => Some(PipelineStage::MillerLoop),
        PipelineStage::MillerLoop => Some(PipelineStage::Fp12Mul),
        PipelineStage::Fp12Mul => Some(PipelineStage::FinalExponentiation),
        PipelineStage::FinalExponentiation => None,
    }
}

/// What the trace prover emitted for one stage: the stage's public inputs,
/// tagged with the stage they belong to.
pub struct StageProof {
    pub stage: PipelineStage,
    pub public_inputs: Vec<u64>,
}

/// One stage's wrapped output: the recursive proof artifact, tagged with
/// the stage that produced it.
#[derive(Debug, PartialEq, Eq)]
pub struct PipelineStageResult {
    pub stage: PipelineStage,
    pub artifact: ProofArtifact,
}

/// The recursive wrapping circuit's slots: one per embedded stage-proof
/// public input, plus the distinguished selector slot the circuit uses to
/// validate which stage it wraps.
pub struct RecursiveStarkTargets {
    pub proof_public_inputs: Vec<usize>,
    pub zero: usize,
}

/// The little-endian base-2^32 digits of the BLS12-381 base-field modulus.
pub open spec fn bls_modulus_limbs() -> Seq<u32> {
    seq![
        0xffffaaabu32,
        0xb9feffffu32,
        0xb153ffffu32,
        0x1eabfffeu32,
        0xf6b0f624u32,
        0x6730d2a0u32,
        0xf38512bfu32,
        0x64774b84u32,
        0x434bacd7u32,
        0x4b1ba7b6u32,
        0x397fe69au32,
        0x1a0111eau32,
    ]
}

/// The BLS12-381 base-field modulus as a limb vector.
pub fn bls_modulus() -> (r: Vec<u32>)
    ensures
        r@ == bls_modulus_limbs(),
{
    let r: Vec<u32> = vec![
        0xffffaaab,
        0xb9feffff,
        0xb153ffff,
        0x1eabfffe,
        0xf6b0f624,
        0x6730d2a0,
        0xf38512bf,
        0x64774b84,
        0x434bacd7,
        0x4b1ba7b6,
        0x397fe69a,
        0x1a0111ea,
    ];
    proof {
        assert(r@ =~= bls_modulus_limbs());
    }
    r
}

/// A base-field element as little-endian limbs, below the modulus.
pub open spec fn fp_wf(limbs: Seq<u32>) -> bool {
    limbs_value(limbs) < limbs_value(bls_modulus_limbs())
}

/// A G1 point in affine coordinates.
pub struct G1Point {
    pub x: Vec<u32>,
    pub y: Vec<u32>,
}

pub open spec fn g1_wf(g: G1Point) -> bool {
    fp_wf(g.x@) && fp_wf(g.y@)
}

/// A G2 point in affine coordinates: two base-field elements per axis.
pub struct G2Point {
    pub x_c0: Vec<u32>,
    pub x_c1: Vec<u32>,
    pub y_c0: Vec<u32>,
    pub y_c1: Vec<u32>,
}

pub open spec fn g2_wf(g: G2Point) -> bool {
    fp_wf(g.x_c0@) && fp_wf(g.x_c1@) && fp_wf(g.y_c0@) && fp_wf(g.y_c1@)
}

/// A degree-12 extension-field element: twelve base-field coefficients.
pub struct Fp12Element {
    pub coeffs: Vec<Vec<u32>>,
}

pub open spec fn fp12_wf(e: Fp12Element) -> bool {
    e.coeffs@.len() == 12 && forall|i: int| 0 <= i < 12 ==> fp_wf((#[trigger] e.coeffs@[i])@)
}

/// Checks a base-field element against the modulus.
pub fn check_fp(limbs: &Vec<u32>) -> (r: bool)
    ensures
        r == fp_wf(limbs@),
{
    let m = bls_modulus();
    limbs_lt(limbs, &m)
}

pub fn check_g1(g: &G1Point) -> (r: bool)
    ensures
        r == g1_wf(*g),
{
    check_fp(&g.x) && check_fp(&g.y)
}

pub fn check_g2(g: &G2Point) -> (r: bool)
    ensures
        r == g2_wf(*g),
{
    check_fp(&g.x_c0) && check_fp(&g.x_c1) && check_fp(&g.y_c0) && check_fp(&g.y_c1)
}

pub fn check_fp12(e: &Fp12Element) -> (r: bool)
    ensures
        r == fp12_wf(*e),
{
    if e.coeffs.len() != 12 {
        return false;
    }
    let mut i: usize = 0;
    while i < 12
        invariant
            i <= 12,
            e.coeffs@.len() == 12,
            forall|k: int| 0 <= k < i ==> fp_wf((#[trigger] e.coeffs@[k])@),
        decreases 12 - i,
    {
        if !check_fp(&e.coeffs[i]) {
            return false;
        }
        i += 1;
    }
    true
}

/// The recursive wrapping witness of one stage: the stage proof's public
/// inputs in their embedding slots, and zero in the selector slot. The same
/// embedding serves every stage.
pub open spec fn stage_witness_spec(
    num_slots: nat,
    pis: Seq<u64>,
    t: RecursiveStarkTargets,
) -> Result<Seq<Option<u64>>, BindingError> {
    let r = set_u64s_step(Ok(empty_witness(num_slots)), t.proof_public_inputs@, pis);
    set_u64s_step(r, seq![t.zero], seq![0u64])
}

/// The exact result of one stage's wrapping step: the stage proof must
/// carry the expected tag, the stage's algebraic inputs must be field
/// elements, and then the embedding witness is assembled.
pub open spec fn stage_spec(
    expected: PipelineStage,
    inputs_ok: bool,
    sp: StageProof,
    t: RecursiveStarkTargets,
    cd: CircuitDescriptor,
) -> Result<Seq<Option<u64>>, PipelineError> {
    if sp.stage != expected {
        Err(PipelineError::WrongStage)
    } else if !inputs_ok {
        Err(PipelineError::Binding(BindingError::ValueTooLarge))
    } else {
        match stage_witness_spec(cd.num_slots as nat, sp.public_inputs@, t) {
            Ok(w) => Ok(w),
            Err(e) => Err(PipelineError::Binding(e)),
        }
    }
}

/// Builds the embedding witness for a tagged stage proof.
fn embed_stage_proof(
    stage_proof: &StageProof,
    targets: &RecursiveStarkTargets,
    circuit_data: &CircuitDescriptor,
) -> (r: Result<WitnessAssignment, PipelineError>)
    ensures
        match stage_witness_spec(
            circuit_data.num_slots as nat,
            stage_proof.public_inputs@,
            *targets,
        ) {
            Ok(w) => r is Ok && r->Ok_0.vals@ == w && r->Ok_0.wf(),
            Err(e) => r == Err::<WitnessAssignment, PipelineError>(PipelineError::Binding(e)),
        },
{
    let mut pw = WitnessAssignment::new(circuit_data.num_slots);
    proof {
        assert(pw.vals@ =~= empty_witness(circuit_data.num_slots as nat));
    }
    if let Err(e) = pw.assign(&targets.proof_public_inputs, &stage_proof.public_inputs) {
        return Err(PipelineError::Binding(e));
    }
    let mut zero_idx: Vec<usize> = Vec::new();
    zero_idx.push(targets.zero);
    let mut zero_val: Vec<u64> = Vec::new();
    zero_val.push(0u64);
    proof {
        assert(zero_idx@ =~= seq![targets.zero]);
        assert(zero_val@ =~= seq![0u64]);
    }
    if let Err(e) = pw.assign(&zero_idx, &zero_val) {
        return Err(PipelineError::Binding(e));
    }
    Ok(pw)
}

/// Wraps the precompute stage: validates the G2 point's coordinates and
/// embeds the line-function precomputation stage proof.
pub fn generate_pairing_precomp_proof(
    g2: &G2Point,
    stage_proof: &StageProof,
    pairing_precomp_targets: &RecursiveStarkTargets,
    circuit_data: &CircuitDescriptor,
) -> (r: Result<WitnessAssignment, PipelineError>)
    ensures
        match stage_spec(
            PipelineStage::Precompute,
            g2_wf(*g2),
            *stage_proof,
            *pairing_precomp_targets,
            *circuit_data,
        ) {
            Ok(w) => r is Ok && r->Ok_0.vals@ == w && r->Ok_0.wf(),
            Err(e) => r == Err::<WitnessAssignment, PipelineError>(e),
        },
{
    if !matches!(stage_proof.stage, PipelineStage::Precompute) {
        return Err(PipelineError::WrongStage);
    }
    if !check_g2(g2) {
        return Err(PipelineError::Binding(BindingError::ValueTooLarge));
    }
    embed_stage_proof(stage_proof, pairing_precomp_targets, circuit_data)
}

/// Wraps the Miller-loop stage: consumes the precompute stage's artifact,
/// validates both points, and embeds the Miller-loop stage proof.
pub fn generate_miller_loop_proof(
    g1: &G1Point,
    g2: &G2Point,
    precomp_result: &PipelineStageResult,
    stage_proof: &StageProof,
    miller_loop_targets: &RecursiveStarkTargets,
    circuit_data: &CircuitDescriptor,
) -> (r: Result<WitnessAssignment, PipelineError>)
    ensures
        match (if !matches!(precomp_result.stage, PipelineStage::Precompute) {
            Err::<Seq<Option<u64>>, PipelineError>(PipelineError::WrongStage)
        } else {
            stage_spec(
                PipelineStage::MillerLoop,
                g1_wf(*g1) && g2_wf(*g2),
                *stage_proof,
                *miller_loop_targets,
                *circuit_data,
            )
        }) {
            Ok(w) => r is Ok && r->Ok_0.vals@ == w && r->Ok_0.wf(),
            Err(e) => r == Err::<WitnessAssignment, PipelineError>(e),
        },
{
    if !matches!(precomp_result.stage, PipelineStage::Precompute) {
        return Err(PipelineError::WrongStage);
    }
    if !matches!(stage_proof.stage, PipelineStage::MillerLoop) {
        return Err(PipelineError::WrongStage);
    }
    let g1_ok = check_g1(g1);
    let g2_ok = check_g2(g2);
    if !(g1_ok && g2_ok) {
        return Err(PipelineError::Binding(BindingError::ValueTooLarge));
    }
    embed_stage_proof(stage_proof, miller_loop_targets, circuit_data)
}

/// Wraps the extension-field multiplication stage: validates both factors
/// and embeds the multiplication stage proof.
pub fn generate_fp12_mul_proof(
    miller_loop1: &Fp12Element,
    miller_loop2: &Fp12Element,
    stage_proof: &StageProof,
    fp12_mul_targets: &RecursiveStarkTargets,
    circuit_data: &CircuitDescriptor,
) -> (r: Result<WitnessAssignment, PipelineError>)
    ensures
        match stage_spec(
            PipelineStage::Fp12Mul,
            fp12_wf(*miller_loop1) && fp12_wf(*miller_loop2),
            *stage_proof,
            *fp12_mul_targets,
            *circuit_data,
        ) {
            Ok(w) => r is Ok && r->Ok_0.vals@ == w && r->Ok_0.wf(),
            Err(e) => r == Err::<WitnessAssignment, PipelineError>(e),
        },
{
    if !matches!(stage_proof.stage, PipelineStage::Fp12Mul) {
        return Err(PipelineError::WrongStage);
    }
    let ok1 = check_fp12(miller_loop1);
    let ok2 = check_fp12(miller_loop2);
    if !(ok1 && ok2) {
        return Err(PipelineError::Binding(BindingError::ValueTooLarge));
    }
    embed_stage_proof(stage_proof, fp12_mul_targets, circuit_data)
}

/// Wraps the terminal final-exponentiation stage.
pub fn generate_final_exponentiate(
    fp12_mul: &Fp12Element,
    stage_proof: &StageProof,
    final_exponentiate_targets: &RecursiveStarkTargets,
    circuit_data: &CircuitDescriptor,
) -> (r: Result<WitnessAssignment, PipelineError>)
    ensures
        match stage_spec(
            PipelineStage::FinalExponentiation,
            fp12_wf(*fp12_mul),
            *stage_proof,
            *final_exponentiate_targets,
            *circuit_data,
        ) {
            Ok(w) => r is Ok && r->Ok_0.vals@ == w && r->Ok_0.wf(),
            Err(e) => r == Err::<WitnessAssignment, PipelineError>(e),
        },
{
    if !matches!(stage_proof.stage, PipelineStage::FinalExponentiation) {
        return Err(PipelineError::WrongStage);
    }
    if !check_fp12(fp12_mul) {
        return Err(PipelineError::Binding(BindingError::ValueTooLarge));
    }
    embed_stage_proof(stage_proof, final_exponentiate_targets, circuit_data)
}

/// Validates what the proving engine returned for one wrapped stage and
/// tags it for the next stage: a proving failure is fatal, and the artifact
/// must declare the wrapping circuit's public-input schema.
pub fn wrap_stage_result(
    stage: PipelineStage,
    engine_result: Result<ProofArtifact, ProvingError>,
    circuit_data: &CircuitDescriptor,
) -> (r: Result<PipelineStageResult, PipelineError>)
    ensures
        match engine_result {
            Err(pe) => r == Err::<PipelineStageResult, PipelineError>(PipelineError::Proving(pe)),
            Ok(a) => if a.public_inputs@.len() == circuit_data.public_inputs_len {
                &&& r is Ok
                &&& r->Ok_0.stage == stage
                &&& r->Ok_0.artifact == a
            } else {
                r == Err::<PipelineStageResult, PipelineError>(
                    PipelineError::Binding(BindingError::LengthMismatch),
                )
            },
        },
{
    match engine_result {
        Err(pe) => Err(PipelineError::Proving(pe)),
        Ok(a) => {
            if a.public_inputs.len() != circuit_data.public_inputs_len {
                return Err(PipelineError::Binding(BindingError::LengthMismatch));
            }
            Ok(PipelineStageResult { stage, artifact: a })
        },
    }
}

/// The wrapping witness of a stage is a function of the stage proof and the
/// targets alone: running a stage twice on equal inputs assembles the
/// identical witness, so the chain's data flow is deterministic and any
/// nondeterminism can come only from the proving engine itself.
pub proof fn lemma_stage_witness_deterministic(
    num_slots: nat,
    sp1: StageProof,
    sp2: StageProof,
    t: RecursiveStarkTargets,
)
    requires
        sp1.public_inputs@ == sp2.public_inputs@,
    ensures
        stage_witness_spec(num_slots, sp1.public_inputs@, t) == stage_witness_spec(
            num_slots,
            sp2.public_inputs@,
            t,
        ),
{
}

} // verus!
