//! The witness binder: maps typed application records (hex byte strings,
//! decimal big integers, flags, bit arrays) onto a circuit's named input
//! slots. Each (circuit shape, record shape) pair binds independently; a
//! hex or decimal decode failure, a value at or above the modulus, or an
//! array length that differs from the schema is a hard binding error.
use vstd::prelude::*;

verus! {

use crate::errors::BindingError;
use crate::foreign::{hex_decode, parse_decimal_limbs};
use crate::numeric::{
    canonical_decimal, check_decimal, dec_string_of, dec_value, hex_bytes_of, lemma_dec_round_trip,
    lemma_limb_extract, lemma_limbs_fit, limb_at, limbs_lt, limbs_value, pow_base, valid_decimal,
    valid_hex, LIMB_BASE,
};
use crate::witness::{assign_spec, lemma_set_targets_pointwise, WitnessAssignment};

// ------------------------------------------------------------------
// Spec-level binding steps
// ------------------------------------------------------------------
pub open spec fn bools_as_vals(bits: Seq<bool>) -> Seq<u64> {
    Seq::new(bits.len(), |i: int| if bits[i] { 1u64 } else { 0u64 })
}

pub open spec fn bytes_as_vals(bs: Seq<u8>) -> Seq<u64> {
    Seq::new(bs.len(), |i: int| bs[i] as u64)
}

/// The little-endian base-2^32 digits of `n`, padded or cut to `k` limbs.
pub open spec fn limb_vals_of(n: nat, k: nat) -> Seq<u64> {
    Seq::new(k, |i: int| ((n / pow_base(i)) % (LIMB_BASE as nat)) as u64)
}

pub type BindStep = Result<Seq<Option<u64>>, BindingError>;

/// Binds a boolean array positionally; the source length must equal the
/// slot count exactly.
pub open spec fn set_bools_step(w: BindStep, idxs: Seq<usize>, bits: Seq<bool>) -> BindStep {
    match w {
        Err(e) => Err(e),
        Ok(w0) => assign_spec(w0, idxs, bools_as_vals(bits)),
    }
}

/// Hex-decodes a byte-string field and binds one byte per slot.
pub open spec fn set_bytes_hex_step(w: BindStep, idxs: Seq<usize>, s: Seq<char>) -> BindStep {
    match w {
        Err(e) => Err(e),
        Ok(w0) => if !valid_hex(s) {
            Err(BindingError::HexDecode)
        } else {
            assign_spec(w0, idxs, bytes_as_vals(hex_bytes_of(s)))
        },
    }
}

/// Binds one 0/1 flag slot.
pub open spec fn set_bool_step(w: BindStep, idx: usize, b: bool) -> BindStep {
    match w {
        Err(e) => Err(e),
        Ok(w0) => assign_spec(w0, seq![idx], seq![if b { 1u64 } else { 0u64 }]),
    }
}

/// Parses a decimal big integer and binds its base-2^32 digits; a value at
/// or above the slot's modulus fails rather than wrapping.
pub open spec fn set_biguint_step(
    w: BindStep,
    limbs: Seq<usize>,
    modulus: Seq<u32>,
    s: Seq<char>,
) -> BindStep {
    match w {
        Err(e) => Err(e),
        Ok(w0) => if !valid_decimal(s) {
            Err(BindingError::DecimalDecode)
        } else if dec_value(s) >= limbs_value(modulus) {
            Err(BindingError::ValueTooLarge)
        } else if dec_value(s) >= pow_base(limbs.len() as int) {
            Err(BindingError::LengthMismatch)
        } else {
            assign_spec(w0, limbs, limb_vals_of(dec_value(s), limbs.len()))
        },
    }
}

/// Binds a list of boolean arrays pairwise; the list lengths must match.
pub open spec fn set_bool_arrays_step(
    w: BindStep,
    tss: Seq<Seq<usize>>,
    srcs: Seq<Seq<bool>>,
) -> BindStep
    decreases tss.len(),
{
    match w {
        Err(e) => Err(e),
        Ok(w0) => if tss.len() != srcs.len() {
            Err(BindingError::LengthMismatch)
        } else if tss.len() == 0 {
            Ok(w0)
        } else {
            set_bool_arrays_step(
                set_bools_step(Ok(w0), tss[0], srcs[0]),
                tss.drop_first(),
                srcs.drop_first(),
            )
        },
    }
}

/// How the witness relates to the step a binding call performed.
pub open spec fn step_matches(
    r: Result<(), BindingError>,
    w_new: Seq<Option<u64>>,
    step: BindStep,
) -> bool {
    match step {
        Ok(w2) => r is Ok && w_new == w2,
        Err(e) => r == Err::<(), BindingError>(e),
    }
}

// ------------------------------------------------------------------
// Executable binding helpers
// ------------------------------------------------------------------
/// Binds each source bit to the matching slot of `target`.
pub(crate) fn set_boolean_pw_values(
    pw: &mut WitnessAssignment,
    target: &Vec<usize>,
    source: &Vec<bool>,
) -> (r: Result<(), BindingError>)
    requires
        old(pw).wf(),
    ensures
        final(pw).wf(),
        final(pw).vals@.len() == old(pw).vals@.len(),
        step_matches(r, final(pw).vals@, set_bools_step(Ok(old(pw).vals@), target@, source@)),
{
    let mut vals: Vec<u64> = Vec::new();
    let mut i: usize = 0;
    while i < source.len()
        invariant
            i <= source.len(),
            vals@.len() == i,
            forall|k: int| 0 <= k < i ==> vals@[k] == bools_as_vals(source@)[k],
        decreases source.len() - i,
    {
        vals.push(if source[i] {
            1u64
        } else {
            0u64
        });
        i += 1;
    }
    proof {
        assert(vals@ =~= bools_as_vals(source@));
    }
    pw.assign(target, &vals)
}

/// Binds each byte to the matching slot of `target`.
pub(crate) fn set_bytes_array(
    pw: &mut WitnessAssignment,
    target: &Vec<usize>,
    bytes: &Vec<u8>,
) -> (r: Result<(), BindingError>)
    requires
        old(pw).wf(),
    ensures
        final(pw).wf(),
        final(pw).vals@.len() == old(pw).vals@.len(),
        match assign_spec(old(pw).vals@, target@, bytes_as_vals(bytes@)) {
            Ok(w2) => r is Ok && final(pw).vals@ == w2,
            Err(e) => r == Err::<(), BindingError>(e),
        },
{
    let mut vals: Vec<u64> = Vec::new();
    let mut i: usize = 0;
    while i < bytes.len()
        invariant
            i <= bytes.len(),
            vals@.len() == i,
            forall|k: int| 0 <= k < i ==> vals@[k] == bytes_as_vals(bytes@)[k],
        decreases bytes.len() - i,
    {
        vals.push(bytes[i] as u64);
        i += 1;
    }
    proof {
        assert(vals@ =~= bytes_as_vals(bytes@));
    }
    pw.assign(target, &vals)
}

/// Hex-decodes a field and binds the bytes.
pub(crate) fn set_hex_bytes(
    pw: &mut WitnessAssignment,
    target: &Vec<usize>,
    s: &String,
) -> (r: Result<(), BindingError>)
    requires
        old(pw).wf(),
    ensures
        final(pw).wf(),
        final(pw).vals@.len() == old(pw).vals@.len(),
        step_matches(r, final(pw).vals@, set_bytes_hex_step(Ok(old(pw).vals@), target@, s@)),
{
    match hex_decode(s.as_str()) {
        Err(_) => Err(BindingError::HexDecode),
        Ok(bytes) => set_bytes_array(pw, target, &bytes),
    }
}

/// Binds one 0/1 flag slot.
pub(crate) fn set_bool_target(pw: &mut WitnessAssignment, idx: usize, b: bool) -> (r: Result<
    (),
    BindingError,
>)
    requires
        old(pw).wf(),
    ensures
        final(pw).wf(),
        final(pw).vals@.len() == old(pw).vals@.len(),
        step_matches(r, final(pw).vals@, set_bool_step(Ok(old(pw).vals@), idx, b)),
{
    let mut idxs: Vec<usize> = Vec::new();
    idxs.push(idx);
    let mut vals: Vec<u64> = Vec::new();
    vals.push(if b {
        1u64
    } else {
        0u64
    });
    proof {
        assert(idxs@ =~= seq![idx]);
        assert(vals@ =~= seq![if b { 1u64 } else { 0u64 }]);
    }
    pw.assign(&idxs, &vals)
}

/// The slots of one big-integer input: its base-2^32 digit slots and the
/// modulus every bound value must lie below.
pub struct BigUintTargets {
    pub limbs: Vec<usize>,
    pub modulus: Vec<u32>,
}

/// Parses a decimal big integer, rejects values at or above the slot's
/// modulus, and binds the value's base-2^32 digits.
pub(crate) fn set_biguint_target(
    pw: &mut WitnessAssignment,
    t: &BigUintTargets,
    s: &String,
) -> (r: Result<(), BindingError>)
    requires
        old(pw).wf(),
    ensures
        final(pw).wf(),
        final(pw).vals@.len() == old(pw).vals@.len(),
        step_matches(
            r,
            final(pw).vals@,
            set_biguint_step(Ok(old(pw).vals@), t.limbs@, t.modulus@, s@),
        ),
{
    if !check_decimal(s.as_str()) {
        return Err(BindingError::DecimalDecode);
    }
    let l = parse_decimal_limbs(s.as_str());
    if !limbs_lt(&l, &t.modulus) {
        return Err(BindingError::ValueTooLarge);
    }
    proof {
        lemma_limbs_fit(l@, t.limbs@.len() as int);
    }
    if l.len() > t.limbs.len() {
        return Err(BindingError::LengthMismatch);
    }
    let k = t.limbs.len();
    let mut vals: Vec<u64> = Vec::new();
    let mut i: usize = 0;
    while i < k
        invariant
            i <= k,
            vals@.len() == i,
            limbs_value(l@) == dec_value(s@),
            forall|j: int| 0 <= j < i ==> vals@[j] == limb_at(l@, j) as u64,
        decreases k - i,
    {
        vals.push(
            if i < l.len() {
                l[i] as u64
            } else {
                0u64
            },
        );
        i += 1;
    }
    proof {
        assert forall|j: int| 0 <= j < k implies vals@[j] == limb_vals_of(
            dec_value(s@),
            t.limbs@.len(),
        )[j] by {
            lemma_limb_extract(l@, j);
        }
        assert(vals@ =~= limb_vals_of(dec_value(s@), t.limbs@.len()));
    }
    pw.assign(&t.limbs, &vals)
}

/// Binds a list of boolean arrays pairwise against a list of slot arrays.
pub(crate) fn set_bool_arrays(
    pw: &mut WitnessAssignment,
    targets: &Vec<Vec<usize>>,
    source: &Vec<Vec<bool>>,
) -> (r: Result<(), BindingError>)
    requires
        old(pw).wf(),
    ensures
        final(pw).wf(),
        final(pw).vals@.len() == old(pw).vals@.len(),
        step_matches(
            r,
            final(pw).vals@,
            set_bool_arrays_step(Ok(old(pw).vals@), targets.deep_view(), source.deep_view()),
        ),
{
    let ghost tss = targets.deep_view();
    let ghost srcs = source.deep_view();
    if targets.len() != source.len() {
        return Err(BindingError::LengthMismatch);
    }
    let ghost w0 = pw.vals@;
    proof {
        assert(tss.skip(0) =~= tss);
        assert(srcs.skip(0) =~= srcs);
    }
    let mut i: usize = 0;
    while i < targets.len()
        invariant
            i <= targets.len(),
            tss == targets.deep_view(),
            srcs == source.deep_view(),
            tss.len() == targets@.len(),
            srcs.len() == source@.len(),
            targets@.len() == source@.len(),
            w0 == old(pw).vals@,
            pw.wf(),
            pw.vals@.len() == w0.len(),
            set_bool_arrays_step(Ok(w0), tss, srcs) == set_bool_arrays_step(
                Ok(pw.vals@),
                tss.skip(i as int),
                srcs.skip(i as int),
            ),
        decreases targets@.len() - i,
    {
        proof {
            assert(tss.skip(i as int)[0] == tss[i as int]);
            assert(srcs.skip(i as int)[0] == srcs[i as int]);
            assert(tss[i as int] == targets@[i as int]@);
            assert(srcs[i as int] == source@[i as int]@);
        }
        let ghost w_before = pw.vals@;
        let rr = set_boolean_pw_values(pw, &targets[i], &source[i]);
        if let Err(e) = rr {
            proof {
                let inner = set_bools_step(Ok(w_before), tss[i as int], srcs[i as int]);
                assert(inner == Err::<Seq<Option<u64>>, BindingError>(e));
                assert(set_bool_arrays_step(Ok(w_before), tss.skip(i as int), srcs.skip(i as int))
                    == set_bool_arrays_step(
                    inner,
                    tss.skip(i as int).drop_first(),
                    srcs.skip(i as int).drop_first(),
                ));
                assert(set_bool_arrays_step(
                    inner,
                    tss.skip(i as int).drop_first(),
                    srcs.skip(i as int).drop_first(),
                ) == Err::<Seq<Option<u64>>, BindingError>(e));
            }
            return Err(e);
        }
        proof {
            assert(tss.skip(i as int).drop_first() =~= tss.skip(i + 1));
            assert(srcs.skip(i as int).drop_first() =~= srcs.skip(i + 1));
        }
        i += 1;
    }
    proof {
        assert(tss.skip(i as int).len() == 0);
    }
    Ok(())
}

// ------------------------------------------------------------------
// The binding capability and the record shapes
// ------------------------------------------------------------------
/// The capability "can assign itself into a witness given a matching record":
/// one implementation per (circuit shape, record shape) pair.
pub trait SetPWValues<T> {
    /// The exact witness this binder yields on `source`, or the first error.
    spec fn bind_spec(&self, w: Seq<Option<u64>>, source: &T) -> BindStep;

    /// Binds `source` into `pw`; on an error the partial witness is to be
    /// discarded, never proved with.
    fn set_pw_values(&self, pw: &mut WitnessAssignment, source: &T) -> (r: Result<
        (),
        BindingError,
    >)
        requires
            old(pw).wf(),
        ensures
            final(pw).wf(),
            final(pw).vals@.len() == old(pw).vals@.len(),
            step_matches(r, final(pw).vals@, self.bind_spec(old(pw).vals@, source)),
    ;
}

/// A validator record for the arithmetic (Poseidon) hash circuit: byte
/// fields hex-encoded, numeric fields as decimal big integers.
pub struct ValidatorPoseidonInput {
    pub pubkey: String,
    pub withdrawal_credentials: String,
    pub effective_balance: String,
    pub slashed: u64,
    pub activation_eligibility_epoch: String,
    pub activation_epoch: String,
    pub exit_epoch: String,
    pub withdrawable_epoch: String,
}

/// The slot schema of the validator Poseidon-hash circuit.
pub struct ValidatorPoseidonTargets {
    pub pubkey: Vec<usize>,
    pub withdrawal_credentials: Vec<usize>,
    pub effective_balance: BigUintTargets,
    pub slashed: usize,
    pub activation_eligibility_epoch: BigUintTargets,
    pub activation_epoch: BigUintTargets,
    pub exit_epoch: BigUintTargets,
    pub withdrawable_epoch: BigUintTargets,
}

/// The whole Poseidon-record binding chain; opaque so that aggregate
/// binders can reason about whole validator records at once.
#[verifier::opaque]
pub open spec fn poseidon_bind_spec(
    t: &ValidatorPoseidonTargets,
    w: Seq<Option<u64>>,
    source: &ValidatorPoseidonInput,
) -> BindStep {
    let r = set_bytes_hex_step(Ok(w), t.pubkey@, source.pubkey@);
    let r = set_bytes_hex_step(r, t.withdrawal_credentials@, source.withdrawal_credentials@);
    let r = set_biguint_step(
        r,
        t.effective_balance.limbs@,
        t.effective_balance.modulus@,
        source.effective_balance@,
    );
    let r = set_bool_step(r, t.slashed, source.slashed == 1);
    let r = set_biguint_step(
        r,
        t.activation_eligibility_epoch.limbs@,
        t.activation_eligibility_epoch.modulus@,
        source.activation_eligibility_epoch@,
    );
    let r = set_biguint_step(
        r,
        t.activation_epoch.limbs@,
        t.activation_epoch.modulus@,
        source.activation_epoch@,
    );
    let r = set_biguint_step(r, t.exit_epoch.limbs@, t.exit_epoch.modulus@, source.exit_epoch@);
    set_biguint_step(
        r,
        t.withdrawable_epoch.limbs@,
        t.withdrawable_epoch.modulus@,
        source.withdrawable_epoch@,
    )
}

impl SetPWValues<ValidatorPoseidonInput> for ValidatorPoseidonTargets {
    open spec fn bind_spec(&self, w: Seq<Option<u64>>, source: &ValidatorPoseidonInput) -> BindStep {
        poseidon_bind_spec(self, w, source)
    }

    fn set_pw_values(&self, pw: &mut WitnessAssignment, source: &ValidatorPoseidonInput) -> (r:
        Result<(), BindingError>) {
        proof {
            reveal(poseidon_bind_spec);
        }
        set_hex_bytes(pw, &self.pubkey, &source.pubkey)?;
        set_hex_bytes(pw, &self.withdrawal_credentials, &source.withdrawal_credentials)?;
        set_biguint_target(pw, &self.effective_balance, &source.effective_balance)?;
        set_bool_target(pw, self.slashed, source.slashed == 1)?;
        set_biguint_target(
            pw,
            &self.activation_eligibility_epoch,
            &source.activation_eligibility_epoch,
        )?;
        set_biguint_target(pw, &self.activation_epoch, &source.activation_epoch)?;
        set_biguint_target(pw, &self.exit_epoch, &source.exit_epoch)?;
        set_biguint_target(pw, &self.withdrawable_epoch, &source.withdrawable_epoch)?;
        Ok(())
    }
}

/// A validator record for the bit-level (SHA) hash circuit: every field,
/// flags and epochs included, is hex-encoded raw bytes.
pub struct ValidatorShaInput {
    pub pubkey: String,
    pub withdrawal_credentials: String,
    pub effective_balance: String,
    pub slashed: String,
    pub activation_eligibility_epoch: String,
    pub activation_epoch: String,
    pub exit_epoch: String,
    pub withdrawable_epoch: String,
}

/// The slot schema of the validator SHA hash-tree-root circuit.
pub struct ValidatorShaTargets {
    pub pubkey: Vec<usize>,
    pub withdrawal_credentials: Vec<usize>,
    pub effective_balance: Vec<usize>,
    pub slashed: Vec<usize>,
    pub activation_eligibility_epoch: Vec<usize>,
    pub activation_epoch: Vec<usize>,
    pub exit_epoch: Vec<usize>,
    pub withdrawable_epoch: Vec<usize>,
}

impl SetPWValues<ValidatorShaInput> for ValidatorShaTargets {
    open spec fn bind_spec(&self, w: Seq<Option<u64>>, source: &ValidatorShaInput) -> BindStep {
        let r = set_bytes_hex_step(Ok(w), self.pubkey@, source.pubkey@);
        let r = set_bytes_hex_step(
            r,
            self.withdrawal_credentials@,
            source.withdrawal_credentials@,
        );
        let r = set_bytes_hex_step(r, self.effective_balance@, source.effective_balance@);
        let r = set_bytes_hex_step(r, self.slashed@, source.slashed@);
        let r = set_bytes_hex_step(
            r,
            self.activation_eligibility_epoch@,
            source.activation_eligibility_epoch@,
        );
        let r = set_bytes_hex_step(r, self.activation_epoch@, source.activation_epoch@);
        let r = set_bytes_hex_step(r, self.exit_epoch@, source.exit_epoch@);
        set_bytes_hex_step(r, self.withdrawable_epoch@, source.withdrawable_epoch@)
    }

    fn set_pw_values(&self, pw: &mut WitnessAssignment, source: &ValidatorShaInput) -> (r: Result<
        (),
        BindingError,
    >) {
        set_hex_bytes(pw, &self.pubkey, &source.pubkey)?;
        set_hex_bytes(pw, &self.withdrawal_credentials, &source.withdrawal_credentials)?;
        set_hex_bytes(pw, &self.effective_balance, &source.effective_balance)?;
        set_hex_bytes(pw, &self.slashed, &source.slashed)?;
        set_hex_bytes(
            pw,
            &self.activation_eligibility_epoch,
            &source.activation_eligibility_epoch,
        )?;
        set_hex_bytes(pw, &self.activation_epoch, &source.activation_epoch)?;
        set_hex_bytes(pw, &self.exit_epoch, &source.exit_epoch)?;
        set_hex_bytes(pw, &self.withdrawable_epoch, &source.withdrawable_epoch)?;
        Ok(())
    }
}

/// Binds a list of validator records pairwise; the record count must equal
/// the circuit's validator slot count.
pub open spec fn bind_validators_step(
    w: BindStep,
    ts: Seq<ValidatorPoseidonTargets>,
    srcs: Seq<ValidatorPoseidonInput>,
) -> BindStep
    decreases ts.len(),
{
    match w {
        Err(e) => Err(e),
        Ok(w0) => if ts.len() != srcs.len() {
            Err(BindingError::LengthMismatch)
        } else if ts.len() == 0 {
            Ok(w0)
        } else {
            bind_validators_step(
                ts[0].bind_spec(w0, &srcs[0]),
                ts.drop_first(),
                srcs.drop_first(),
            )
        },
    }
}

/// The balances-and-validators aggregate record: per-slot balance bit
/// arrays, nested validator records, a zero-padding flag per slot, the
/// current epoch, and one withdrawal-credentials bit array per shard.
pub struct ValidatorBalancesInput {
    pub balances: Vec<Vec<bool>>,
    pub validators: Vec<ValidatorPoseidonInput>,
    pub withdrawal_credentials: Vec<Vec<bool>>,
    pub validator_is_zero: Vec<bool>,
    pub current_epoch: String,
}

/// The slot schema of the balance-verification circuit; the length of
/// `withdrawal_credentials` is the circuit's compile-time shard width.
pub struct ValidatorBalanceVerificationTargets {
    pub balances: Vec<Vec<usize>>,
    pub validators: Vec<ValidatorPoseidonTargets>,
    pub withdrawal_credentials: Vec<Vec<usize>>,
    pub validator_is_zero: Vec<usize>,
    pub current_epoch: BigUintTargets,
}

impl SetPWValues<ValidatorBalancesInput> for ValidatorBalanceVerificationTargets {
    open spec fn bind_spec(&self, w: Seq<Option<u64>>, source: &ValidatorBalancesInput) -> BindStep {
        let r = set_bool_arrays_step(Ok(w), self.balances.deep_view(), source.balances.deep_view());
        let r = bind_validators_step(r, self.validators@, source.validators@);
        let r = set_bool_arrays_step(
            r,
            self.withdrawal_credentials.deep_view(),
            source.withdrawal_credentials.deep_view(),
        );
        let r = set_bools_step(r, self.validator_is_zero@, source.validator_is_zero@);
        set_biguint_step(
            r,
            self.current_epoch.limbs@,
            self.current_epoch.modulus@,
            source.current_epoch@,
        )
    }

    #[verifier::rlimit(100)]
    fn set_pw_values(&self, pw: &mut WitnessAssignment, source: &ValidatorBalancesInput) -> (r:
        Result<(), BindingError>) {
        set_bool_arrays(pw, &self.balances, &source.balances)?;
        let ghost ts = self.validators@;
        let ghost srcs = source.validators@;
        if self.validators.len() != source.validators.len() {
            return Err(BindingError::LengthMismatch);
        }
        let ghost w0 = pw.vals@;
        proof {
            assert(ts.skip(0) =~= ts);
            assert(srcs.skip(0) =~= srcs);
        }
        let mut i: usize = 0;
        while i < self.validators.len()
            invariant
                i <= self.validators@.len(),
                ts == self.validators@,
                srcs == source.validators@,
                ts.len() == srcs.len(),
                pw.wf(),
                pw.vals@.len() == w0.len(),
                w0.len() == old(pw).vals@.len(),
                set_bool_arrays_step(
                    Ok(old(pw).vals@),
                    self.balances.deep_view(),
                    source.balances.deep_view(),
                ) == Ok::<Seq<Option<u64>>, BindingError>(w0),
                bind_validators_step(Ok(w0), ts, srcs) == bind_validators_step(
                    Ok(pw.vals@),
                    ts.skip(i as int),
                    srcs.skip(i as int),
                ),
            decreases ts.len() - i,
        {
            proof {
                assert(ts.skip(i as int)[0] == ts[i as int]);
                assert(srcs.skip(i as int)[0] == srcs[i as int]);
            }
            let ghost w_before = pw.vals@;
            let rr = self.validators[i].set_pw_values(pw, &source.validators[i]);
            if let Err(e) = rr {
                proof {
                    let inner = ts[i as int].bind_spec(w_before, &srcs[i as int]);
                    assert(inner == Err::<Seq<Option<u64>>, BindingError>(e));
                    assert(bind_validators_step(Ok(w_before), ts.skip(i as int), srcs.skip(i as int))
                        == bind_validators_step(
                        inner,
                        ts.skip(i as int).drop_first(),
                        srcs.skip(i as int).drop_first(),
                    ));
                }
                return Err(e);
            }
            proof {
                assert(ts.skip(i as int).drop_first() =~= ts.skip(i + 1));
                assert(srcs.skip(i as int).drop_first() =~= srcs.skip(i + 1));
            }
            i += 1;
        }
        proof {
            assert(ts.skip(i as int).len() == 0);
        }
        set_bool_arrays(pw, &self.withdrawal_credentials, &source.withdrawal_credentials)?;
        set_boolean_pw_values(pw, &self.validator_is_zero, &source.validator_is_zero)?;
        set_biguint_target(pw, &self.current_epoch, &source.current_epoch)?;
        Ok(())
    }
}

/// The final-state record: state and block roots, the slot, several Merkle
/// branches as bit-array sequences, and the validator-count bit field.
pub struct FinalCircuitInput {
    pub state_root: Vec<bool>,
    pub state_root_branch: Vec<Vec<bool>>,
    pub block_root: Vec<bool>,
    pub slot: String,
    pub slot_branch: Vec<Vec<bool>>,
    pub withdrawal_credentials: Vec<Vec<bool>>,
    pub balance_branch: Vec<Vec<bool>>,
    pub validators_branch: Vec<Vec<bool>>,
    pub validators_size_bits: Vec<bool>,
}

/// The slot schema of the final circuit.
pub struct FinalCircuitTargets {
    pub state_root: Vec<usize>,
    pub state_root_branch: Vec<Vec<usize>>,
    pub block_root: Vec<usize>,
    pub slot: BigUintTargets,
    pub slot_branch: Vec<Vec<usize>>,
    pub withdrawal_credentials: Vec<Vec<usize>>,
    pub balance_branch: Vec<Vec<usize>>,
    pub validators_branch: Vec<Vec<usize>>,
    pub validator_size_bits: Vec<usize>,
}

impl SetPWValues<FinalCircuitInput> for FinalCircuitTargets {
    open spec fn bind_spec(&self, w: Seq<Option<u64>>, source: &FinalCircuitInput) -> BindStep {
        let r = set_bools_step(Ok(w), self.state_root@, source.state_root@);
        let r = set_bool_arrays_step(
            r,
            self.state_root_branch.deep_view(),
            source.state_root_branch.deep_view(),
        );
        let r = set_bools_step(r, self.block_root@, source.block_root@);
        let r = set_biguint_step(r, self.slot.limbs@, self.slot.modulus@, source.slot@);
        let r = set_bool_arrays_step(
            r,
            self.slot_branch.deep_view(),
            source.slot_branch.deep_view(),
        );
        let r = set_bool_arrays_step(
            r,
            self.withdrawal_credentials.deep_view(),
            source.withdrawal_credentials.deep_view(),
        );
        let r = set_bool_arrays_step(
            r,
            self.balance_branch.deep_view(),
            source.balance_branch.deep_view(),
        );
        let r = set_bool_arrays_step(
            r,
            self.validators_branch.deep_view(),
            source.validators_branch.deep_view(),
        );
        set_bools_step(r, self.validator_size_bits@, source.validators_size_bits@)
    }

    fn set_pw_values(&self, pw: &mut WitnessAssignment, source: &FinalCircuitInput) -> (r: Result<
        (),
        BindingError,
    >) {
        set_boolean_pw_values(pw, &self.state_root, &source.state_root)?;
        set_bool_arrays(pw, &self.state_root_branch, &source.state_root_branch)?;
        set_boolean_pw_values(pw, &self.block_root, &source.block_root)?;
        set_biguint_target(pw, &self.slot, &source.slot)?;
        set_bool_arrays(pw, &self.slot_branch, &source.slot_branch)?;
        set_bool_arrays(pw, &self.withdrawal_credentials, &source.withdrawal_credentials)?;
        set_bool_arrays(pw, &self.balance_branch, &source.balance_branch)?;
        set_bool_arrays(pw, &self.validators_branch, &source.validators_branch)?;
        set_boolean_pw_values(pw, &self.validator_size_bits, &source.validators_size_bits)?;
        Ok(())
    }
}

/// Binding then re-encoding a big-integer field is lossless: re-encoding
/// the bound value of a canonical decimal string gives the string back,
/// while a value at or above the slot's modulus fails binding with
/// ValueTooLarge rather than wrapping.
pub proof fn lemma_biguint_bind_round_trip(
    w: Seq<Option<u64>>,
    limbs: Seq<usize>,
    modulus: Seq<u32>,
    s: Seq<char>,
)
    requires
        canonical_decimal(s),
    ensures
        dec_string_of(dec_value(s)) == s,
        dec_value(s) >= limbs_value(modulus) ==> set_biguint_step(Ok(w), limbs, modulus, s)
            == Err::<Seq<Option<u64>>, BindingError>(BindingError::ValueTooLarge),
{
    lemma_dec_round_trip(s);
}

/// Boolean-array binding demands an exact length match and then preserves
/// every element positionally: slot `idxs[j]` holds exactly `bits[j]`.
pub proof fn lemma_bool_binding_positional(w: Seq<Option<u64>>, idxs: Seq<usize>, bits: Seq<bool>)
    ensures
        idxs.len() != bits.len() ==> set_bools_step(Ok(w), idxs, bits) == Err::<
            Seq<Option<u64>>,
            BindingError,
        >(BindingError::LengthMismatch),
        set_bools_step(Ok(w), idxs, bits) is Ok ==> {
            let w2 = set_bools_step(Ok(w), idxs, bits)->Ok_0;
            &&& w2.len() == w.len()
            &&& forall|j: int|
                0 <= j < idxs.len() ==> w2[idxs[j] as int] == Some(
                    if bits[j] {
                        1u64
                    } else {
                        0u64
                    },
                )
            &&& forall|i: int|
                0 <= i < w.len() && (forall|j: int| 0 <= j < idxs.len() ==> idxs[j] != i) ==> w2[i]
                    == w[i]
        },
{
    if idxs.len() == bits.len() {
        lemma_set_targets_pointwise(w, idxs, bools_as_vals(bits));
    }
}

/// Binding is deterministic: validator records with equal field values
/// bound against the same targets yield the same witness, so equal leaves
/// give the proving engine identical requests.
pub proof fn lemma_poseidon_bind_deterministic(
    t: ValidatorPoseidonTargets,
    w: Seq<Option<u64>>,
    s1: ValidatorPoseidonInput,
    s2: ValidatorPoseidonInput,
)
    requires
        s1.pubkey@ == s2.pubkey@,
        s1.withdrawal_credentials@ == s2.withdrawal_credentials@,
        s1.effective_balance@ == s2.effective_balance@,
        s1.slashed == s2.slashed,
        s1.activation_eligibility_epoch@ == s2.activation_eligibility_epoch@,
        s1.activation_epoch@ == s2.activation_epoch@,
        s1.exit_epoch@ == s2.exit_epoch@,
        s1.withdrawable_epoch@ == s2.withdrawable_epoch@,
    ensures
        poseidon_bind_spec(&t, w, &s1) == poseidon_bind_spec(&t, w, &s2),
{
    reveal(poseidon_bind_spec);
}

} // verus!
