//! Decimal and hexadecimal text encodings of the numeric witness values, and
//! little-endian base-2^32 limb representations of big integers.
use vstd::prelude::*;

verus! {

use vstd::arithmetic::div_mod::{
    lemma_fundamental_div_mod_converse_div,
    lemma_fundamental_div_mod_converse_mod,
};
use vstd::string::StrSliceExecFns;

/// Radix of one limb: big integers are carried as little-endian `u32` digits.
pub const LIMB_BASE: u64 = 0x1_0000_0000;

// ------------------------------------------------------------------
// Decimal digits
// ------------------------------------------------------------------
pub open spec fn is_dec_digit(c: char) -> bool {
    c == '0' || c == '1' || c == '2' || c == '3' || c == '4' || c == '5' || c == '6' || c == '7'
        || c == '8' || c == '9'
}

pub open spec fn dec_digit_value(c: char) -> nat {
    if c == '0' {
        0
    } else if c == '1' {
        1
    } else if c == '2' {
        2
    } else if c == '3' {
        3
    } else if c == '4' {
        4
    } else if c == '5' {
        5
    } else if c == '6' {
        6
    } else if c == '7' {
        7
    } else if c == '8' {
        8
    } else {
        9
    }
}

pub open spec fn dec_char_of(d: nat) -> char {
    if d == 0 {
        '0'
    } else if d == 1 {
        '1'
    } else if d == 2 {
        '2'
    } else if d == 3 {
        '3'
    } else if d == 4 {
        '4'
    } else if d == 5 {
        '5'
    } else if d == 6 {
        '6'
    } else if d == 7 {
        '7'
    } else if d == 8 {
        '8'
    } else {
        '9'
    }
}

pub open spec fn all_dec_digits(s: Seq<char>) -> bool {
    forall|i: int| 0 <= i < s.len() ==> is_dec_digit(s[i])
}

/// A decimal-string big integer as the application records carry it: at least
/// one digit, digits only.
pub open spec fn valid_decimal(s: Seq<char>) -> bool {
    s.len() > 0 && all_dec_digits(s)
}

/// The number a decimal digit string denotes.
pub open spec fn dec_value(s: Seq<char>) -> nat
    decreases s.len(),
{
    if s.len() == 0 {
        0
    } else {
        dec_value(s.drop_last()) * 10 + dec_digit_value(s.last())
    }
}

/// The digits of `n` without a leading zero; empty for zero.
pub open spec fn dec_digits_of(n: nat) -> Seq<char>
    decreases n,
{
    if n == 0 {
        Seq::empty()
    } else {
        dec_digits_of(n / 10).push(dec_char_of(n % 10))
    }
}

/// The canonical decimal rendering of `n`.
pub open spec fn dec_string_of(n: nat) -> Seq<char> {
    if n == 0 {
        seq!['0']
    } else {
        dec_digits_of(n)
    }
}

/// A decimal string in canonical form: what re-encoding a bound value yields.
pub open spec fn canonical_decimal(s: Seq<char>) -> bool {
    valid_decimal(s) && (s.len() > 1 ==> s[0] != '0')
}

// ------------------------------------------------------------------
// Hexadecimal digits
// ------------------------------------------------------------------
pub open spec fn is_hex_digit(c: char) -> bool {
    is_dec_digit(c) || c == 'a' || c == 'b' || c == 'c' || c == 'd' || c == 'e' || c == 'f'
        || c == 'A' || c == 'B' || c == 'C' || c == 'D' || c == 'E' || c == 'F'
}

pub open spec fn hex_digit_value(c: char) -> nat {
    if c == 'a' || c == 'A' {
        10
    } else if c == 'b' || c == 'B' {
        11
    } else if c == 'c' || c == 'C' {
        12
    } else if c == 'd' || c == 'D' {
        13
    } else if c == 'e' || c == 'E' {
        14
    } else if c == 'f' || c == 'F' {
        15
    } else {
        dec_digit_value(c)
    }
}

/// Lower-case hex digit for `d < 16`.
pub open spec fn hex_char_of(d: nat) -> char {
    if d < 10 {
        dec_char_of(d)
    } else if d == 10 {
        'a'
    } else if d == 11 {
        'b'
    } else if d == 12 {
        'c'
    } else if d == 13 {
        'd'
    } else if d == 14 {
        'e'
    } else {
        'f'
    }
}

pub open spec fn all_hex_digits(s: Seq<char>) -> bool {
    forall|i: int| 0 <= i < s.len() ==> is_hex_digit(s[i])
}

/// A string hex-decodes exactly when it has even length and only hex digits.
pub open spec fn valid_hex(s: Seq<char>) -> bool {
    s.len() % 2 == 0 && all_hex_digits(s)
}

/// The bytes a hex string decodes to, two digits per byte, high digit first.
pub open spec fn hex_bytes_of(s: Seq<char>) -> Seq<u8> {
    Seq::new(
        (s.len() / 2) as nat,
        |i: int| (hex_digit_value(s[2 * i]) * 16 + hex_digit_value(s[2 * i + 1])) as u8,
    )
}

/// The lower-case hex rendering of a byte string, two digits per byte.
pub open spec fn hex_string_of(b: Seq<u8>) -> Seq<char> {
    Seq::new(
        2 * b.len(),
        |i: int|
            if i % 2 == 0 {
                hex_char_of((b[i / 2] / 16) as nat)
            } else {
                hex_char_of((b[i / 2] % 16) as nat)
            },
    )
}

// ------------------------------------------------------------------
// Limb representations
// ------------------------------------------------------------------
/// Limb `i` of a limb string, zero past the end.
pub open spec fn limb_at(s: Seq<u32>, i: int) -> u32 {
    if 0 <= i < s.len() {
        s[i]
    } else {
        0
    }
}

/// The number denoted by the limbs at positions `k` and above.
pub open spec fn limbs_value_from(s: Seq<u32>, k: int) -> nat
    decreases s.len() - k,
{
    if k < 0 || k >= s.len() {
        0
    } else {
        (s[k] + (LIMB_BASE as nat) * limbs_value_from(s, k + 1)) as nat
    }
}

/// The number a little-endian limb string denotes.
pub open spec fn limbs_value(s: Seq<u32>) -> nat {
    limbs_value_from(s, 0)
}

/// No trailing zero limb: the shape `num_bigint` hands out.
pub open spec fn normalized_limbs(s: Seq<u32>) -> bool {
    s.len() == 0 || s[s.len() - 1] != 0
}

pub open spec fn pow_base(n: int) -> nat
    decreases n,
{
    if n <= 0 {
        1
    } else {
        (LIMB_BASE as nat) * pow_base(n - 1)
    }
}

// ------------------------------------------------------------------
// Limb lemmas
// ------------------------------------------------------------------
/// Unrolling `limbs_value_from` one position holds at every non-negative index.
pub proof fn lemma_limbs_unroll(s: Seq<u32>, k: int)
    requires
        0 <= k,
    ensures
        limbs_value_from(s, k) == limb_at(s, k) + (LIMB_BASE as nat) * limbs_value_from(s, k + 1),
{
    if k >= s.len() {
        assert(limbs_value_from(s, k) == 0);
        assert(limbs_value_from(s, k + 1) == 0);
    }
}

/// Two limb strings that agree limb for limb from `k` on denote the same tail.
pub proof fn lemma_limbs_tail_equal(a: Seq<u32>, b: Seq<u32>, k: int)
    requires
        0 <= k,
        forall|j: int| k <= j ==> limb_at(a, j) == limb_at(b, j),
    ensures
        limbs_value_from(a, k) == limbs_value_from(b, k),
    decreases (if a.len() > b.len() { a.len() } else { b.len() }) - k,
{
    if k >= a.len() && k >= b.len() {
        assert(limbs_value_from(a, k) == 0);
        assert(limbs_value_from(b, k) == 0);
    } else {
        lemma_limbs_tail_equal(a, b, k + 1);
        lemma_limbs_unroll(a, k);
        lemma_limbs_unroll(b, k);
        assert(limb_at(a, k) == limb_at(b, k));
    }
}

/// Splits the value below position `i` from the tail: the low part is bounded
/// by `pow_base(i - k)`.
pub proof fn lemma_limbs_decompose(s: Seq<u32>, k: int, i: int) -> (m: nat)
    requires
        0 <= k <= i,
    ensures
        limbs_value_from(s, k) == m + pow_base(i - k) * limbs_value_from(s, i),
        m < pow_base(i - k),
    decreases i - k,
{
    if k == i {
        assert(pow_base(0) == 1);
        0
    } else {
        let m2 = lemma_limbs_decompose(s, k + 1, i);
        lemma_limbs_unroll(s, k);
        let lk = limb_at(s, k) as nat;
        let b = LIMB_BASE as nat;
        let p2 = pow_base(i - k - 1);
        let t = limbs_value_from(s, i);
        let m = lk + b * m2;
        assert(pow_base(i - k) == b * p2);
        assert(limbs_value_from(s, k) == lk + b * (m2 + p2 * t));
        assert(lk + b * (m2 + p2 * t) == (lk + b * m2) + (b * p2) * t) by (nonlinear_arith);
        assert(m < b * p2) by (nonlinear_arith)
            requires
                lk < b,
                m2 < p2,
                m == lk + b * m2,
                b == LIMB_BASE as nat,
        ;
        m
    }
}

/// If the limbs above `i` agree and limb `i` is smaller in `a`, the whole
/// value is smaller: positional comparison decides limb strings.
pub proof fn lemma_limbs_cmp(a: Seq<u32>, b: Seq<u32>, i: int)
    requires
        0 <= i,
        forall|j: int| i < j ==> limb_at(a, j) == limb_at(b, j),
        limb_at(a, i) < limb_at(b, i),
    ensures
        limbs_value(a) < limbs_value(b),
{
    lemma_limbs_tail_equal(a, b, i + 1);
    lemma_limbs_unroll(a, i);
    lemma_limbs_unroll(b, i);
    let t = limbs_value_from(a, i + 1);
    assert(limbs_value_from(a, i) < limbs_value_from(b, i));
    let ma = lemma_limbs_decompose(a, 0, i);
    let mb = lemma_limbs_decompose(b, 0, i);
    let p = pow_base(i);
    let va = limbs_value_from(a, i);
    let vb = limbs_value_from(b, i);
    assert(ma + p * va < p * (va + 1)) by (nonlinear_arith)
        requires
            ma < p,
    ;
    assert(p * (va + 1) <= p * vb) by (nonlinear_arith)
        requires
            va < vb,
            p >= 1,
    ;
    assert(p * vb <= mb + p * vb);
}

/// Limb strings that agree everywhere denote equal values.
pub proof fn lemma_limbs_equal(a: Seq<u32>, b: Seq<u32>)
    requires
        forall|j: int| 0 <= j ==> limb_at(a, j) == limb_at(b, j),
    ensures
        limbs_value(a) == limbs_value(b),
{
    lemma_limbs_tail_equal(a, b, 0);
}

pub proof fn lemma_pow_base_pos(n: int)
    ensures
        pow_base(n) >= 1,
    decreases n,
{
    if n > 0 {
        lemma_pow_base_pos(n - 1);
        assert(pow_base(n) == (LIMB_BASE as nat) * pow_base(n - 1));
        assert((LIMB_BASE as nat) * pow_base(n - 1) >= 1) by (nonlinear_arith)
            requires
                pow_base(n - 1) >= 1,
        ;
    }
}

/// Every limb is the matching base-2^32 digit of the denoted value: the limb
/// string of a number is unique.
pub proof fn lemma_limb_extract(s: Seq<u32>, i: int)
    requires
        0 <= i,
    ensures
        limb_at(s, i) == (limbs_value(s) / pow_base(i)) % (LIMB_BASE as nat),
{
    let b = LIMB_BASE as nat;
    let p = pow_base(i);
    lemma_pow_base_pos(i);
    let m = lemma_limbs_decompose(s, 0, i);
    let t = limbs_value_from(s, i);
    assert(limbs_value(s) as int == (t as int) * (p as int) + m as int) by (nonlinear_arith)
        requires
            limbs_value(s) == m + p * t,
    ;
    lemma_fundamental_div_mod_converse_div(limbs_value(s) as int, p as int, t as int, m as int);
    assert(t as int == limbs_value(s) as int / p as int);
    lemma_limbs_unroll(s, i);
    let hi = limbs_value_from(s, i + 1);
    assert(t as int == (hi as int) * (b as int) + limb_at(s, i) as int) by (nonlinear_arith)
        requires
            t == limb_at(s, i) + b * hi,
    ;
    lemma_fundamental_div_mod_converse_mod(t as int, b as int, hi as int, limb_at(s, i) as int);
}

pub proof fn lemma_pow_base_mono(a: int, b: int)
    requires
        a <= b,
    ensures
        pow_base(a) <= pow_base(b),
    decreases b - a,
{
    if a < b && b > 0 {
        lemma_pow_base_mono(a, b - 1);
        lemma_pow_base_pos(b - 1);
        assert(pow_base(b) == (LIMB_BASE as nat) * pow_base(b - 1));
        assert((LIMB_BASE as nat) * pow_base(b - 1) >= pow_base(b - 1)) by (nonlinear_arith)
            requires
                pow_base(b - 1) >= 1,
        ;
    }
}

/// A limb string's value is below the power of the base its length gives.
pub proof fn lemma_limbs_from_bound(s: Seq<u32>, k: int)
    requires
        0 <= k,
    ensures
        limbs_value_from(s, k) < pow_base(s.len() - k),
    decreases s.len() - k,
{
    if k >= s.len() {
        lemma_pow_base_pos(s.len() - k);
    } else {
        lemma_limbs_from_bound(s, k + 1);
        lemma_limbs_unroll(s, k);
        let b = LIMB_BASE as nat;
        let p = pow_base(s.len() - k - 1);
        assert(pow_base(s.len() - k) == b * p);
        assert((limb_at(s, k) as nat) + b * limbs_value_from(s, k + 1) < b * p) by (nonlinear_arith)
            requires
                (limb_at(s, k) as nat) < b,
                limbs_value_from(s, k + 1) < p,
                b == LIMB_BASE as nat,
        ;
    }
}

/// A normalized limb string's top limb pushes its value to at least the power
/// of the base one below its length.
pub proof fn lemma_limbs_top(s: Seq<u32>)
    requires
        normalized_limbs(s),
        s.len() > 0,
    ensures
        limbs_value(s) >= pow_base(s.len() - 1),
{
    let i = s.len() - 1;
    let m = lemma_limbs_decompose(s, 0, i);
    lemma_limbs_unroll(s, i);
    assert(limbs_value_from(s, i + 1) == 0);
    assert(limbs_value_from(s, i) == limb_at(s, i));
    assert(limb_at(s, i) >= 1);
    assert(m + pow_base(i) * limbs_value_from(s, i) >= pow_base(i)) by (nonlinear_arith)
        requires
            limbs_value_from(s, i) >= 1,
    ;
}

/// For a normalized limb string, fitting in `k` limbs is the same as the
/// value lying below the `k`-th power of the base.
pub proof fn lemma_limbs_fit(s: Seq<u32>, k: int)
    requires
        normalized_limbs(s),
        0 <= k,
    ensures
        s.len() <= k <==> limbs_value(s) < pow_base(k),
{
    if s.len() <= k {
        lemma_limbs_from_bound(s, 0);
        lemma_pow_base_mono(s.len() as int, k);
    } else {
        lemma_limbs_top(s);
        lemma_pow_base_mono(k, s.len() - 1);
    }
}

/// A digit string whose first digit is not zero denotes a positive number.
pub proof fn lemma_dec_value_pos(s: Seq<char>)
    requires
        all_dec_digits(s),
        s.len() > 0,
        s[0] != '0',
    ensures
        dec_value(s) >= 1,
    decreases s.len(),
{
    if s.len() == 1 {
        assert(s.last() == s[0]);
        assert(is_dec_digit(s[0]));
    } else {
        lemma_dec_value_pos(s.drop_last());
    }
}

/// Re-encoding the value of a canonical decimal string gives the string back:
/// binding and re-encoding a big-integer field is lossless.
pub proof fn lemma_dec_round_trip(s: Seq<char>)
    requires
        canonical_decimal(s),
    ensures
        dec_string_of(dec_value(s)) == s,
    decreases s.len(),
{
    let d = dec_digit_value(s.last());
    assert(is_dec_digit(s.last()));
    if s.len() == 1 {
        assert(s.last() == s[0]);
        assert(s.drop_last().len() == 0);
        assert(dec_value(s.drop_last()) == 0);
        assert(dec_value(s) == d);
        if s[0] == '0' {
            assert(dec_value(s) == 0);
            assert(dec_string_of(0) =~= s);
        } else {
            lemma_dec_value_pos(s);
            assert(dec_value(s) == d);
            assert(d < 10);
            assert(dec_digits_of(d) == dec_digits_of(d / 10).push(dec_char_of(d % 10)));
            assert(d / 10 == 0 && d % 10 == d);
            assert(dec_char_of(d) == s[0]);
            assert(dec_string_of(d) =~= s);
        }
    } else {
        let p = s.drop_last();
        assert(p[0] == s[0]);
        assert(all_dec_digits(p)) by {
            assert(forall|i: int| 0 <= i < p.len() ==> p[i] == s[i] && is_dec_digit(s[i]));
        }
        lemma_dec_value_pos(p);
        let vp = dec_value(p);
        let v = dec_value(s);
        assert(v == vp * 10 + d);
        lemma_fundamental_div_mod_converse_div(v as int, 10, vp as int, d as int);
        lemma_fundamental_div_mod_converse_mod(v as int, 10, vp as int, d as int);
        assert(v >= 10) by (nonlinear_arith)
            requires
                v == vp * 10 + d,
                vp >= 1,
        ;
        lemma_dec_round_trip(p);
        assert(dec_digits_of(vp) == p);
        assert(dec_char_of(d) == s.last());
        assert(dec_digits_of(v) == dec_digits_of(vp).push(dec_char_of(d)));
        assert(dec_string_of(v) =~= s);
    }
}

/// Checks that a string is a well-formed decimal big integer: non-empty,
/// decimal digits only.
pub fn check_decimal(s: &str) -> (r: bool)
    ensures
        r == valid_decimal(s@),
{
    let n = s.unicode_len();
    if n == 0 {
        return false;
    }
    let mut i: usize = 0;
    while i < n
        invariant
            i <= n,
            n == s@.len(),
            forall|k: int| 0 <= k < i ==> is_dec_digit(s@[k]),
        decreases n - i,
    {
        let c = s.get_char(i);
        if !(c == '0' || c == '1' || c == '2' || c == '3' || c == '4' || c == '5' || c == '6'
            || c == '7' || c == '8' || c == '9') {
            return false;
        }
        i += 1;
    }
    true
}

// ------------------------------------------------------------------
// Limb comparison
// ------------------------------------------------------------------
/// Compares two little-endian limb strings as numbers.
pub fn limbs_lt(a: &Vec<u32>, b: &Vec<u32>) -> (r: bool)
    ensures
        r == (limbs_value(a@) < limbs_value(b@)),
{
    let mut i: usize = if a.len() > b.len() {
        a.len()
    } else {
        b.len()
    };
    loop
        invariant
            forall|j: int| i <= j ==> limb_at(a@, j) == limb_at(b@, j),
        decreases i,
    {
        if i == 0 {
            proof {
                lemma_limbs_equal(a@, b@);
            }
            return false;
        }
        i = i - 1;
        let av: u32 = if i < a.len() {
            a[i]
        } else {
            0
        };
        let bv: u32 = if i < b.len() {
            b[i]
        } else {
            0
        };
        if av < bv {
            proof {
                lemma_limbs_cmp(a@, b@, i as int);
            }
            return true;
        }
        if av > bv {
            proof {
                lemma_limbs_cmp(b@, a@, i as int);
            }
            return false;
        }
    }
}

} // verus!
