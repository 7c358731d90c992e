//! The hash-test harness: turns a fixture's raw inputs into the ordered
//! value stream the hash-test circuit reads (two roots, the slot, one
//! beacon-validator record), and checks and formats what the circuit
//! computed. Building the circuit, proving and reading its outputs happen
//! in the engine outside; only plain values cross this boundary.
use vstd::prelude::*;

verus! {

use vstd::string::StringExecFns;
use crate::foreign::{hex_encode, limbs_to_decimal};
use crate::numeric::{dec_string_of, hex_string_of, lemma_limbs_unroll, limbs_value};

/// A fixture's raw inputs: two 32-byte roots, a slot, a validator pubkey,
/// and the slashed flag.
pub struct Inputs {
    pub a: Vec<u8>,
    pub b: Vec<u8>,
    pub slot: u64,
    pub pubkey: Vec<u8>,
    pub slashed: bool,
}

/// A fixture's expected outputs: the computed hash and epoch.
pub struct Outputs {
    pub hash: Vec<u8>,
    pub epoch: u64,
}

/// One fixture: inputs and the outputs they must produce.
pub struct TestInput {
    pub inputs: Inputs,
    pub outputs: Outputs,
}

/// The beacon-validator record the circuit's input stream carries: byte
/// fields hex-encoded, epoch fields as decimal strings.
pub struct BeaconValidatorRecord {
    pub pubkey: String,
    pub withdrawal_credentials: String,
    pub activation_epoch: String,
    pub activation_eligibility_epoch: String,
    pub exit_epoch: String,
    pub slashed: bool,
    pub effective_balance: u64,
    pub withdrawable_epoch: String,
}

/// The ordered input stream of the hash-test circuit.
pub struct HashTestWitness {
    pub a: Vec<u8>,
    pub b: Vec<u8>,
    pub slot: u64,
    pub validator: BeaconValidatorRecord,
}

/// The computed hash or epoch did not equal the fixture's expectation.
#[derive(Clone, Copy, PartialEq, Eq, Structural, Debug)]
pub struct HashTestFailure;

/// Renders `v` as canonical decimal digits.
pub fn u64_to_decimal(v: u64) -> (r: String)
    ensures
        r@ == dec_string_of(v as nat),
{
    let lo: u32 = #[verifier::truncate] ((v & 0xffff_ffff) as u32);
    let hi: u32 = #[verifier::truncate] ((v >> 32) as u32);
    let mut limbs: Vec<u32> = Vec::new();
    limbs.push(lo);
    limbs.push(hi);
    proof {
        assert(limbs@ =~= seq![lo, hi]);
        assert(v == (lo as u64) + 0x1_0000_0000u64 * (hi as u64) && lo == (v & 0xffff_ffff) as u32
            && hi == (v >> 32) as u32) by (bit_vector)
            requires
                lo == (v & 0xffff_ffff) as u32,
                hi == (v >> 32) as u32,
        ;
        lemma_limbs_unroll(limbs@, 0);
        lemma_limbs_unroll(limbs@, 1);
        lemma_limbs_unroll(limbs@, 2);
        assert(limbs_value(limbs@) == lo + 0x1_0000_0000 * (hi as nat));
    }
    limbs_to_decimal(&limbs)
}

/// Builds the circuit's input stream from a fixture's raw inputs, as the
/// engine writes it: root `a`, root `b`, the slot, then a validator record
/// whose credentials repeat root `a`, whose epochs all carry the slot, and
/// whose effective balance is the fixed 32.
pub fn run(inputs: &Inputs) -> (r: HashTestWitness)
    ensures
        r.a@ == inputs.a@,
        r.b@ == inputs.b@,
        r.slot == inputs.slot,
        r.validator.pubkey@ == hex_string_of(inputs.pubkey@),
        r.validator.withdrawal_credentials@ == hex_string_of(inputs.a@),
        r.validator.activation_epoch@ == dec_string_of(inputs.slot as nat),
        r.validator.activation_eligibility_epoch@ == dec_string_of(inputs.slot as nat),
        r.validator.exit_epoch@ == dec_string_of(inputs.slot as nat),
        r.validator.withdrawable_epoch@ == dec_string_of(inputs.slot as nat),
        r.validator.slashed == inputs.slashed,
        r.validator.effective_balance == 32,
{
    let slot = inputs.slot;
    let validator = BeaconValidatorRecord {
        pubkey: hex_encode(&inputs.pubkey),
        withdrawal_credentials: hex_encode(&inputs.a),
        activation_epoch: u64_to_decimal(slot),
        activation_eligibility_epoch: u64_to_decimal(slot),
        exit_epoch: u64_to_decimal(slot),
        slashed: inputs.slashed,
        effective_balance: 32,
        withdrawable_epoch: u64_to_decimal(slot),
    };
    let mut a: Vec<u8> = Vec::new();
    let mut i: usize = 0;
    while i < inputs.a.len()
        invariant
            i <= inputs.a@.len(),
            a@ == inputs.a@.take(i as int),
        decreases inputs.a@.len() - i,
    {
        a.push(inputs.a[i]);
        proof {
            assert(a@ =~= inputs.a@.take(i + 1));
        }
        i += 1;
    }
    let mut b: Vec<u8> = Vec::new();
    let mut j: usize = 0;
    while j < inputs.b.len()
        invariant
            j <= inputs.b@.len(),
            b@ == inputs.b@.take(j as int),
        decreases inputs.b@.len() - j,
    {
        b.push(inputs.b[j]);
        proof {
            assert(b@ =~= inputs.b@.take(j + 1));
        }
        j += 1;
    }
    proof {
        assert(a@ =~= inputs.a@);
        assert(b@ =~= inputs.b@);
    }
    HashTestWitness { a, b, slot, validator }
}

fn bytes_eq(a: &Vec<u8>, b: &Vec<u8>) -> (r: bool)
    ensures
        r == (a@ == b@),
{
    if a.len() != b.len() {
        return false;
    }
    let mut i: usize = 0;
    while i < a.len()
        invariant
            i <= a@.len(),
            a@.len() == b@.len(),
            forall|k: int| 0 <= k < i ==> a@[k] == b@[k],
        decreases a@.len() - i,
    {
        if a[i] != b[i] {
            return false;
        }
        i += 1;
    }
    proof {
        assert(a@ =~= b@);
    }
    true
}

/// Checks the computed hash and epoch against the fixture's expectations
/// when asked, and renders them as "0x<hex-hash> <epoch>".
pub fn wrapper(
    fixture: &TestInput,
    computed_hash: &Vec<u8>,
    computed_epoch: u64,
    should_assert: bool,
) -> (r: Result<String, HashTestFailure>)
    ensures
        r is Ok <==> (!should_assert || (computed_hash@ == fixture.outputs.hash@ && computed_epoch
            == fixture.outputs.epoch)),
        r is Ok ==> r->Ok_0@ == seq!['0', 'x'] + hex_string_of(computed_hash@) + seq![' ']
            + dec_string_of(computed_epoch as nat),
{
    if should_assert {
        if !bytes_eq(computed_hash, &fixture.outputs.hash) {
            return Err(HashTestFailure);
        }
        if computed_epoch != fixture.outputs.epoch {
            return Err(HashTestFailure);
        }
    }
    let hash_hex = hex_encode(computed_hash);
    let epoch_dec = u64_to_decimal(computed_epoch);
    let mut out = String::from_str("0x");
    out.append(hash_hex.as_str());
    out.append(" ");
    out.append(epoch_dec.as_str());
    proof {
        reveal_strlit("0x");
        reveal_strlit(" ");
        assert("0x"@ =~= seq!['0', 'x']);
        assert(" "@ =~= seq![' ']);
    }
    Ok(out)
}

} // verus!
