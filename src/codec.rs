use vstd::prelude::*;
use vstd::arithmetic::div_mod::lemma_fundamental_div_mod_converse;
use crate::bignum::{BigUnsigned, limb_base, limbs_value};
use crate::types::{U256, U384, half_base, pow2_256};

verus! {

/// Why a value could not be packed or read.
#[derive(Clone, Copy, Debug, PartialEq, Eq, Structural)]
pub enum CodecError {
    /// The value does not fit the fixed-width type.
    Overflow,
    /// The token stream ended before every field was read.
    TruncatedInput,
}

/// Limb `i` of `s`, or zero past its end.
pub open spec fn limb_at(s: Seq<u64>, i: int) -> nat {
    if 0 <= i < s.len() {
        s[i] as nat
    } else {
        0
    }
}

/// The limbs of `s` from index four on.
pub open spec fn upper_limbs(s: Seq<u64>) -> Seq<u64> {
    if s.len() > 4 {
        s.subrange(4, s.len() as int)
    } else {
        Seq::<u64>::empty()
    }
}

/// `s` without its first limb.
spec fn rest(s: Seq<u64>) -> Seq<u64> {
    if s.len() > 0 {
        s.subrange(1, s.len() as int)
    } else {
        Seq::<u64>::empty()
    }
}

proof fn lemma_value_step(s: Seq<u64>)
    ensures
        limbs_value(s) == limb_at(s, 0) + limb_base() * limbs_value(rest(s)),
{
    reveal_with_fuel(limbs_value, 2);
}

/// The value of a limb sequence in terms of its four lowest limbs and the rest.
proof fn lemma_value_split4(s: Seq<u64>)
    ensures
        limbs_value(s) == limb_at(s, 0) + limb_base() * (limb_at(s, 1) + limb_base() * (limb_at(
            s,
            2,
        ) + limb_base() * (limb_at(s, 3) + limb_base() * limbs_value(upper_limbs(s))))),
{
    let s1 = rest(s);
    let s2 = rest(s1);
    let s3 = rest(s2);
    let s4 = rest(s3);
    lemma_value_step(s);
    lemma_value_step(s1);
    lemma_value_step(s2);
    lemma_value_step(s3);
    assert(limb_at(s1, 0) == limb_at(s, 1));
    assert(limb_at(s2, 0) == limb_at(s, 2));
    assert(limb_at(s3, 0) == limb_at(s, 3));
    assert(s4 =~= upper_limbs(s));
}

proof fn lemma_value_zero(t: Seq<u64>)
    requires
        forall|j: int| 0 <= j < t.len() ==> t[j] == 0,
    ensures
        limbs_value(t) == 0,
    decreases t.len(),
{
    if t.len() > 0 {
        let r = t.subrange(1, t.len() as int);
        assert forall|j: int| 0 <= j < r.len() implies r[j] == 0 by {
            assert(r[j] == t[j + 1]);
        }
        lemma_value_zero(r);
    }
}

proof fn lemma_value_positive(t: Seq<u64>, j: int)
    requires
        0 <= j < t.len(),
        t[j] != 0,
    ensures
        limbs_value(t) >= 1,
    decreases t.len(),
{
    if j > 0 {
        let r = t.subrange(1, t.len() as int);
        assert(r[j - 1] == t[j]);
        lemma_value_positive(r, j - 1);
    }
}

pub(crate) proof fn lemma_digit_below(b: int, l: int, x: int, m: int)
    requires
        b > 1,
        0 <= l < b,
        x >= 0,
        m >= 1,
    ensures
        (l + b * x < b * m) <==> (x < m),
{
    assert(b * (m - 1) == b * m - b) by (nonlinear_arith);
    if x < m {
        assert(b * x <= b * (m - 1)) by (nonlinear_arith)
            requires
                b > 1,
                x <= m - 1,
        ;
    } else {
        assert(b * x >= b * m) by (nonlinear_arith)
            requires
                b > 1,
                x >= m,
        ;
    }
}

/// `n`, written with four limbs below `b` and a remainder, is below `b^4`
/// exactly when the remainder is zero, and its limbs are then those of
/// `U384::from_nat(n)`.
proof fn lemma_four_limbs(n: nat, l0: nat, l1: nat, l2: nat, l3: nat, hi: nat)
    requires
        l0 < limb_base(),
        l1 < limb_base(),
        l2 < limb_base(),
        l3 < limb_base(),
        n == l0 + limb_base() * (l1 + limb_base() * (l2 + limb_base() * (l3 + limb_base() * hi))),
    ensures
        n < pow2_256() <==> hi == 0,
        hi == 0 ==> U384::from_nat(n) == (U384 {
            limb0: l0 as u64,
            limb1: l1 as u64,
            limb2: l2 as u64,
            limb3: l3 as u64,
        }),
{
    let b = limb_base() as int;
    let x3 = l3 + b * hi;
    let x2 = l2 + b * x3;
    let x1 = l1 + b * x2;
    assert(pow2_256() == b * (b * (b * b))) by {
        assert(half_base() == b * b);
        assert((b * b) * (b * b) == b * (b * (b * b))) by (nonlinear_arith);
    }
    lemma_digit_below(b, l0 as int, x1, b * (b * b));
    lemma_digit_below(b, l1 as int, x2, b * b);
    lemma_digit_below(b, l2 as int, x3, b);
    lemma_digit_below(b, l3 as int, hi as int, 1);
    lemma_fundamental_div_mod_converse(n as int, b, x1, l0 as int);
    lemma_fundamental_div_mod_converse(x1, b, x2, l1 as int);
    lemma_fundamental_div_mod_converse(x2, b, x3, l2 as int);
    if hi == 0 {
        lemma_fundamental_div_mod_converse(x3, b, 0, l3 as int);
    }
}

proof fn lemma_regroup(b: int, l0: int, l1: int, l2: int, l3: int)
    requires
        b > 1,
        0 <= l0 < b,
        0 <= l1 < b,
    ensures
        l0 + b * (l1 + b * (l2 + b * l3)) == (l0 + b * l1) + (b * b) * (l2 + b * l3),
        l0 + b * l1 < b * b,
{
    assert(l0 + b * (l1 + b * (l2 + b * l3)) == (l0 + b * l1) + (b * b) * (l2 + b * l3))
        by (nonlinear_arith);
    lemma_digit_below(b, l0, l1, b);
}

/// Packing then reading back a value below 2^256 gives the value itself.
pub proof fn lemma_codec_round_trip(n: nat)
    requires
        n < pow2_256(),
    ensures
        U256::from_nat(n)@ == n,
        U384::from_nat(n)@ == n,
{
    let b = limb_base() as int;
    let h = half_base() as int;
    assert(h == b * b);
    assert(pow2_256() == h * h);
    vstd::arithmetic::div_mod::lemma_fundamental_div_mod(n as int, h);
    assert(n as int / h < h) by {
        vstd::arithmetic::div_mod::lemma_multiply_divide_lt(n as int, h, h);
    }
    vstd::arithmetic::div_mod::lemma_small_mod((n as int / h) as nat, h as nat);
    let q1 = n as int / b;
    let q2 = q1 / b;
    let q3 = q2 / b;
    vstd::arithmetic::div_mod::lemma_fundamental_div_mod(n as int, b);
    vstd::arithmetic::div_mod::lemma_fundamental_div_mod(q1, b);
    vstd::arithmetic::div_mod::lemma_fundamental_div_mod(q2, b);
    vstd::arithmetic::div_mod::lemma_div_denominator(n as int, b, b);
    vstd::arithmetic::div_mod::lemma_div_denominator(n as int, b * b, b);
    assert(q3 < b) by {
        assert(pow2_256() == (b * b * b) * b);
        vstd::arithmetic::div_mod::lemma_multiply_divide_lt(n as int, b * b * b, b);
        vstd::arithmetic::div_mod::lemma_div_denominator(n as int, b * b, b);
    }
    vstd::arithmetic::div_mod::lemma_small_mod(q3 as nat, b as nat);
}

/// The two halves of `n`; fails when `n` is 2^256 or more.
pub fn pack_256(n: &BigUnsigned) -> (r: Result<U256, CodecError>)
    ensures
        n@ < pow2_256() ==> r == Ok::<U256, CodecError>(U256::from_nat(n@)),
        n@ >= pow2_256() ==> r == Err::<U256, CodecError>(CodecError::Overflow),
{
    match pack_384(n) {
        Ok(w) => {
            let low: u128 = w.limb0 as u128 + (w.limb1 as u128) * 0x1_0000_0000_0000_0000u128;
            let high: u128 = w.limb2 as u128 + (w.limb3 as u128) * 0x1_0000_0000_0000_0000u128;
            proof {
                let b = limb_base() as int;
                lemma_regroup(b, w.limb0 as int, w.limb1 as int, w.limb2 as int, w.limb3 as int);
                lemma_regroup(b, w.limb2 as int, w.limb3 as int, 0, 0);
                assert(half_base() == b * b);
                lemma_fundamental_div_mod_converse(n@ as int, b * b, high as int, low as int);
                vstd::arithmetic::div_mod::lemma_small_mod(high as nat, half_base());
            }
            Ok(U256 { low, high })
        },
        Err(e) => Err(e),
    }
}

/// The four limbs of `n`; fails when `n` is 2^256 or more.
pub fn pack_384(n: &BigUnsigned) -> (r: Result<U384, CodecError>)
    ensures
        n@ < pow2_256() ==> r == Ok::<U384, CodecError>(U384::from_nat(n@)),
        n@ >= pow2_256() ==> r == Err::<U384, CodecError>(CodecError::Overflow),
{
    let len = n.limbs.len();
    let ghost s = n.limbs@;
    proof {
        lemma_value_split4(s);
    }
    let mut i: usize = 4;
    while i < len
        invariant
            4 <= i,
            len == s.len(),
            s == n.limbs@,
            forall|j: int| 4 <= j < i ==> s[j] == 0,
        decreases len - i,
    {
        if n.limbs[i] != 0 {
            proof {
                lemma_value_split4(s);
                assert(upper_limbs(s)[i - 4] == s[i as int]);
                lemma_value_positive(upper_limbs(s), i - 4);
                lemma_four_limbs(
                    n@,
                    limb_at(s, 0),
                    limb_at(s, 1),
                    limb_at(s, 2),
                    limb_at(s, 3),
                    limbs_value(upper_limbs(s)),
                );
            }
            return Err(CodecError::Overflow);
        }
        i = i + 1;
    }
    let limb0: u64 = if len > 0 { n.limbs[0] } else { 0 };
    let limb1: u64 = if len > 1 { n.limbs[1] } else { 0 };
    let limb2: u64 = if len > 2 { n.limbs[2] } else { 0 };
    let limb3: u64 = if len > 3 { n.limbs[3] } else { 0 };
    proof {
        lemma_value_split4(s);
        let u = upper_limbs(s);
        assert forall|j: int| 0 <= j < u.len() implies u[j] == 0 by {
            assert(u[j] == s[j + 4]);
        }
        lemma_value_zero(u);
        lemma_four_limbs(n@, limb0 as nat, limb1 as nat, limb2 as nat, limb3 as nat, 0);
    }
    Ok(U384 { limb0, limb1, limb2, limb3 })
}

/// The value of exactly four limbs, written out.
proof fn lemma_value_of_four(s: Seq<u64>)
    requires
        s.len() == 4,
    ensures
        limbs_value(s) == s[0] + limb_base() * (s[1] + limb_base() * (s[2] + limb_base() * s[3])),
{
    lemma_value_split4(s);
    assert(upper_limbs(s) =~= Seq::<u64>::empty());
}

/// The number that `u` holds.
pub fn unpack_256(u: &U256) -> (r: BigUnsigned)
    ensures
        r@ == u@,
{
    let low = u.low;
    let high = u.high;
    let limbs = vec![low as u64, (low >> 64u32) as u64, high as u64, (high >> 64u32) as u64];
    proof {
        assert(low == (low as u64) + 0x1_0000_0000_0000_0000 * ((low >> 64u32) as u64))
            by (bit_vector);
        assert(high == (high as u64) + 0x1_0000_0000_0000_0000 * ((high >> 64u32) as u64))
            by (bit_vector);
        lemma_value_of_four(limbs@);
        lemma_regroup(
            limb_base() as int,
            limbs@[0] as int,
            limbs@[1] as int,
            limbs@[2] as int,
            limbs@[3] as int,
        );
    }
    BigUnsigned::from_limbs(limbs)
}

/// The number that `u` holds.
pub fn unpack_384(u: &U384) -> (r: BigUnsigned)
    ensures
        r@ == u@,
{
    let limbs = vec![u.limb0, u.limb1, u.limb2, u.limb3];
    proof {
        lemma_value_of_four(limbs@);
    }
    BigUnsigned::from_limbs(limbs)
}

} // verus!
