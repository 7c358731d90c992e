//! The calls into outside crates that the binder leans on: hex codecs and
//! big-integer text codecs. Each carries the exact contract the crate's
//! source shows; everything around them is verified against these contracts.
use vstd::prelude::*;

verus! {

use crate::numeric::{
    dec_string_of, dec_value, hex_bytes_of, hex_string_of, limbs_value, normalized_limbs,
    valid_decimal, valid_hex,
};

#[verifier::external_type_specification]
#[verifier::external_body]
pub struct ExFromHexError(hex::FromHexError);

/// Relies on hex::decode: it succeeds exactly on even-length strings of hex
/// digits and yields one byte per digit pair, high digit first.
#[verifier::external_body]
pub(crate) fn hex_decode(s: &str) -> (r: Result<Vec<u8>, hex::FromHexError>)
    ensures
        r is Ok <==> valid_hex(s@),
        r is Ok ==> r->Ok_0@ == hex_bytes_of(s@),
{
    hex::decode(s)
}

/// Relies on hex::encode: two lower-case hex digits per byte, high digit
/// first.
#[verifier::external_body]
pub(crate) fn hex_encode(b: &Vec<u8>) -> (r: String)
    ensures
        r@ == hex_string_of(b@),
{
    hex::encode(b)
}

/// Relies on num_bigint::BigUint: parsing a non-empty, all-digit decimal
/// string succeeds with the denoted value, and to_u32_digits returns the
/// value's little-endian base-2^32 digits with no trailing zero digit.
#[verifier::external_body]
pub(crate) fn parse_decimal_limbs(s: &str) -> (r: Vec<u32>)
    requires
        valid_decimal(s@),
    ensures
        limbs_value(r@) == dec_value(s@),
        normalized_limbs(r@),
{
    let n: num_bigint::BigUint = s.parse().unwrap();
    n.to_u32_digits()
}

/// Relies on num_bigint::BigUint: new() reads little-endian base-2^32 digits,
/// and to_string renders the canonical decimal digits, with no leading zero
/// and "0" for zero.
#[verifier::external_body]
pub(crate) fn limbs_to_decimal(l: &Vec<u32>) -> (r: String)
    ensures
        r@ == dec_string_of(limbs_value(l@)),
{
    num_bigint::BigUint::new(l.clone()).to_string()
}

} // verus!
