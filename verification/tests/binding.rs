use proof_chain::binder::{
    BigUintTargets, SetPWValues, ValidatorBalanceVerificationTargets, ValidatorBalancesInput,
    ValidatorPoseidonInput, ValidatorPoseidonTargets, ValidatorShaInput, ValidatorShaTargets,
};
use proof_chain::errors::BindingError;
use proof_chain::witness::WitnessAssignment;

fn u64_modulus() -> Vec<u32> {
    // 2^64 as little-endian base-2^32 limbs
    vec![0, 0, 1]
}

fn poseidon_targets() -> ValidatorPoseidonTargets {
    ValidatorPoseidonTargets {
        pubkey: (0..2).collect(),
        withdrawal_credentials: (2..4).collect(),
        effective_balance: BigUintTargets { limbs: vec![4, 5], modulus: u64_modulus() },
        slashed: 6,
        activation_eligibility_epoch: BigUintTargets { limbs: vec![7, 8], modulus: u64_modulus() },
        activation_epoch: BigUintTargets { limbs: vec![9, 10], modulus: u64_modulus() },
        exit_epoch: BigUintTargets { limbs: vec![11, 12], modulus: u64_modulus() },
        withdrawable_epoch: BigUintTargets { limbs: vec![13, 14], modulus: u64_modulus() },
    }
}

fn poseidon_record() -> ValidatorPoseidonInput {
    ValidatorPoseidonInput {
        pubkey: "ab01".to_string(),
        withdrawal_credentials: "ff10".to_string(),
        effective_balance: "4294967297".to_string(),
        slashed: 1,
        activation_eligibility_epoch: "0".to_string(),
        activation_epoch: "7".to_string(),
        exit_epoch: "18446744073709551615".to_string(),
        withdrawable_epoch: "12".to_string(),
    }
}

#[test]
fn poseidon_record_binds_all_fields() {
    let t = poseidon_targets();
    let rec = poseidon_record();
    let mut pw = WitnessAssignment::new(15);
    t.set_pw_values(&mut pw, &rec).expect("binding must succeed");
    // hex-decoded pubkey bytes, positionally
    assert_eq!(pw.get(0), Some(0xab));
    assert_eq!(pw.get(1), Some(0x01));
    assert_eq!(pw.get(2), Some(0xff));
    assert_eq!(pw.get(3), Some(0x10));
    // effective balance 2^32 + 1 -> limbs [1, 1]
    assert_eq!(pw.get(4), Some(1));
    assert_eq!(pw.get(5), Some(1));
    // slashed flag
    assert_eq!(pw.get(6), Some(1));
    // zero epoch -> limbs [0, 0]
    assert_eq!(pw.get(7), Some(0));
    assert_eq!(pw.get(8), Some(0));
    assert_eq!(pw.get(9), Some(7));
    assert_eq!(pw.get(10), Some(0));
    // u64::MAX just below the 2^64 modulus
    assert_eq!(pw.get(11), Some(0xffff_ffff));
    assert_eq!(pw.get(12), Some(0xffff_ffff));
    assert_eq!(pw.get(13), Some(12));
    assert_eq!(pw.get(14), Some(0));
}

#[test]
fn bound_big_integer_re_encodes_to_original_decimal() {
    let t = poseidon_targets();
    let rec = poseidon_record();
    let mut pw = WitnessAssignment::new(15);
    t.set_pw_values(&mut pw, &rec).unwrap();
    let lo = pw.get(11).unwrap();
    let hi = pw.get(12).unwrap();
    let value = lo as u128 + ((hi as u128) << 32);
    assert_eq!(value.to_string(), rec.exit_epoch);
    let eb = pw.get(4).unwrap() as u128 + ((pw.get(5).unwrap() as u128) << 32);
    assert_eq!(eb.to_string(), rec.effective_balance);
}

#[test]
fn value_at_modulus_fails_binding() {
    let t = poseidon_targets();
    let mut rec = poseidon_record();
    // exactly 2^64: at the modulus, must fail, not wrap
    rec.effective_balance = "18446744073709551616".to_string();
    let mut pw = WitnessAssignment::new(15);
    let r = t.set_pw_values(&mut pw, &rec);
    assert_eq!(r, Err(BindingError::ValueTooLarge));
}

#[test]
fn value_above_modulus_fails_binding() {
    let t = poseidon_targets();
    let mut rec = poseidon_record();
    rec.exit_epoch = "99999999999999999999999".to_string();
    let mut pw = WitnessAssignment::new(15);
    assert_eq!(t.set_pw_values(&mut pw, &rec), Err(BindingError::ValueTooLarge));
}

#[test]
fn odd_length_hex_fails_binding() {
    let t = poseidon_targets();
    let mut rec = poseidon_record();
    rec.pubkey = "abc".to_string();
    let mut pw = WitnessAssignment::new(15);
    assert_eq!(t.set_pw_values(&mut pw, &rec), Err(BindingError::HexDecode));
}

#[test]
fn non_hex_digit_fails_binding() {
    let t = poseidon_targets();
    let mut rec = poseidon_record();
    rec.withdrawal_credentials = "zz00".to_string();
    let mut pw = WitnessAssignment::new(15);
    assert_eq!(t.set_pw_values(&mut pw, &rec), Err(BindingError::HexDecode));
}

#[test]
fn non_decimal_digit_fails_binding() {
    let t = poseidon_targets();
    let mut rec = poseidon_record();
    rec.activation_epoch = "12a".to_string();
    let mut pw = WitnessAssignment::new(15);
    assert_eq!(t.set_pw_values(&mut pw, &rec), Err(BindingError::DecimalDecode));
}

#[test]
fn empty_decimal_fails_binding() {
    let t = poseidon_targets();
    let mut rec = poseidon_record();
    rec.withdrawable_epoch = String::new();
    let mut pw = WitnessAssignment::new(15);
    assert_eq!(t.set_pw_values(&mut pw, &rec), Err(BindingError::DecimalDecode));
}

#[test]
fn hex_width_mismatch_fails_binding() {
    let t = poseidon_targets();
    let mut rec = poseidon_record();
    // three bytes for two slots
    rec.pubkey = "aabbcc".to_string();
    let mut pw = WitnessAssignment::new(15);
    assert_eq!(t.set_pw_values(&mut pw, &rec), Err(BindingError::LengthMismatch));
}

#[test]
fn slot_conflict_is_refused() {
    let mut t = poseidon_targets();
    t.withdrawal_credentials = vec![0, 1]; // same slots as pubkey
    let rec = poseidon_record();
    let mut pw = WitnessAssignment::new(15);
    assert_eq!(t.set_pw_values(&mut pw, &rec), Err(BindingError::SlotConflict));
}

#[test]
fn slot_out_of_range_is_refused() {
    let t = poseidon_targets();
    let rec = poseidon_record();
    let mut pw = WitnessAssignment::new(3);
    assert_eq!(t.set_pw_values(&mut pw, &rec), Err(BindingError::SlotOutOfRange));
}

#[test]
fn sha_record_binds_every_field_as_bytes() {
    let t = ValidatorShaTargets {
        pubkey: vec![0],
        withdrawal_credentials: vec![1],
        effective_balance: vec![2],
        slashed: vec![3],
        activation_eligibility_epoch: vec![4],
        activation_epoch: vec![5],
        exit_epoch: vec![6],
        withdrawable_epoch: vec![7],
    };
    let rec = ValidatorShaInput {
        pubkey: "0a".to_string(),
        withdrawal_credentials: "0b".to_string(),
        effective_balance: "0c".to_string(),
        slashed: "01".to_string(),
        activation_eligibility_epoch: "10".to_string(),
        activation_epoch: "20".to_string(),
        exit_epoch: "30".to_string(),
        withdrawable_epoch: "ff".to_string(),
    };
    let mut pw = WitnessAssignment::new(8);
    t.set_pw_values(&mut pw, &rec).unwrap();
    assert_eq!(pw.get(0), Some(0x0a));
    assert_eq!(pw.get(1), Some(0x0b));
    assert_eq!(pw.get(2), Some(0x0c));
    assert_eq!(pw.get(3), Some(0x01));
    assert_eq!(pw.get(4), Some(0x10));
    assert_eq!(pw.get(5), Some(0x20));
    assert_eq!(pw.get(6), Some(0x30));
    assert_eq!(pw.get(7), Some(0xff));
}

fn balances_targets() -> ValidatorBalanceVerificationTargets {
    ValidatorBalanceVerificationTargets {
        balances: vec![vec![0, 1], vec![2, 3]],
        validators: vec![],
        withdrawal_credentials: vec![vec![4, 5], vec![6, 7]],
        validator_is_zero: vec![8, 9],
        current_epoch: BigUintTargets { limbs: vec![10, 11], modulus: u64_modulus() },
    }
}

fn balances_record() -> ValidatorBalancesInput {
    ValidatorBalancesInput {
        balances: vec![vec![true, false], vec![false, true]],
        validators: vec![],
        withdrawal_credentials: vec![vec![true, true], vec![false, false]],
        validator_is_zero: vec![false, true],
        current_epoch: "42".to_string(),
    }
}

#[test]
fn boolean_arrays_bind_positionally() {
    let t = balances_targets();
    let rec = balances_record();
    let mut pw = WitnessAssignment::new(12);
    t.set_pw_values(&mut pw, &rec).unwrap();
    assert_eq!(pw.get(0), Some(1));
    assert_eq!(pw.get(1), Some(0));
    assert_eq!(pw.get(2), Some(0));
    assert_eq!(pw.get(3), Some(1));
    assert_eq!(pw.get(4), Some(1));
    assert_eq!(pw.get(5), Some(1));
    assert_eq!(pw.get(6), Some(0));
    assert_eq!(pw.get(7), Some(0));
    assert_eq!(pw.get(8), Some(0));
    assert_eq!(pw.get(9), Some(1));
    assert_eq!(pw.get(10), Some(42));
    assert_eq!(pw.get(11), Some(0));
}

#[test]
fn boolean_array_length_mismatch_fails() {
    let t = balances_targets();
    let mut rec = balances_record();
    rec.balances[0] = vec![true]; // one bit for two slots
    let mut pw = WitnessAssignment::new(12);
    assert_eq!(t.set_pw_values(&mut pw, &rec), Err(BindingError::LengthMismatch));
}

#[test]
fn shard_width_mismatch_fails_before_any_proving() {
    let t = balances_targets();
    let mut rec = balances_record();
    // three credential arrays against a shard width of two
    rec.withdrawal_credentials.push(vec![true, false]);
    let mut pw = WitnessAssignment::new(12);
    assert_eq!(t.set_pw_values(&mut pw, &rec), Err(BindingError::LengthMismatch));
}

#[test]
fn validator_count_mismatch_fails() {
    let mut t = balances_targets();
    t.validators = vec![poseidon_targets()];
    let rec = balances_record(); // no validator records
    let mut pw = WitnessAssignment::new(30);
    assert_eq!(t.set_pw_values(&mut pw, &rec), Err(BindingError::LengthMismatch));
}

#[test]
fn nested_validators_bind_recursively() {
    let mut t = balances_targets();
    let mut inner = poseidon_targets();
    // move the validator's slots past the aggregate's own slots
    inner.pubkey = vec![12, 13];
    inner.withdrawal_credentials = vec![14, 15];
    inner.effective_balance.limbs = vec![16, 17];
    inner.slashed = 18;
    inner.activation_eligibility_epoch.limbs = vec![19, 20];
    inner.activation_epoch.limbs = vec![21, 22];
    inner.exit_epoch.limbs = vec![23, 24];
    inner.withdrawable_epoch.limbs = vec![25, 26];
    t.validators = vec![inner];
    let mut rec = balances_record();
    rec.validators = vec![poseidon_record()];
    let mut pw = WitnessAssignment::new(27);
    t.set_pw_values(&mut pw, &rec).unwrap();
    assert_eq!(pw.get(12), Some(0xab));
    assert_eq!(pw.get(16), Some(1));
    assert_eq!(pw.get(17), Some(1));
    assert_eq!(pw.get(18), Some(1));
}

#[test]
fn equal_records_bind_to_equal_witnesses() {
    let t = poseidon_targets();
    let rec1 = poseidon_record();
    let rec2 = poseidon_record();
    let mut pw1 = WitnessAssignment::new(15);
    let mut pw2 = WitnessAssignment::new(15);
    t.set_pw_values(&mut pw1, &rec1).unwrap();
    t.set_pw_values(&mut pw2, &rec2).unwrap();
    assert_eq!(pw1.vals, pw2.vals);
}

#[test]
fn completeness_is_checked_before_proving() {
    let t = poseidon_targets();
    let rec = poseidon_record();
    let mut pw = WitnessAssignment::new(16);
    t.set_pw_values(&mut pw, &rec).unwrap();
    // slot 15 was never assigned
    assert!(!pw.is_complete());
    let mut full = WitnessAssignment::new(15);
    t.set_pw_values(&mut full, &rec).unwrap();
    assert!(full.is_complete());
}

#[test]
fn value_too_wide_for_the_limb_slots_fails() {
    let mut t = poseidon_targets();
    // one limb slot, but a three-limb modulus: 2^32 fits the modulus yet not the slot
    t.activation_epoch = BigUintTargets { limbs: vec![9], modulus: u64_modulus() };
    let mut rec = poseidon_record();
    rec.activation_epoch = "4294967296".to_string();
    let mut pw = WitnessAssignment::new(15);
    assert_eq!(t.set_pw_values(&mut pw, &rec), Err(BindingError::LengthMismatch));
}
