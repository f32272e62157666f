use vstd::prelude::*;
use vstd::string::StringExecFns;
use ark_ed25519::{Fq, Fr};
use ark_ff::PrimeField;
use ark_std::UniformRand;
use rand::SeedableRng;
use crate::bignum::{BigUnsigned, decimal_text, limb_base, limbs_value};
use crate::codec::{CodecError, lemma_codec_round_trip, lemma_digit_below, pack_384};
use crate::curves::{Point, curve_order, field_modulus};
use crate::types::half_base;

verus! {

/// The base field element that ark's `Fq` sampler draws from a `StdRng`
/// seeded with `seed`, as its canonical representative.
pub uninterp spec fn field_sample_of(seed: u64) -> nat;

/// The scalar that ark's `Fr` sampler draws from a `StdRng` seeded with
/// `seed`, as its canonical representative.
pub uninterp spec fn scalar_sample_of(seed: u64) -> nat;

/// Relies on rand's `StdRng::seed_from_u64`, ark-ff's `UniformRand` for `Fq`
/// and `into_bigint`: the same seed gives the same element, whose canonical
/// representative lies below the field modulus.
#[verifier::external_body]
fn sample_field_limbs(seed: u64) -> (r: Vec<u64>)
    ensures
        limbs_value(r@) == field_sample_of(seed),
        limbs_value(r@) < field_modulus(),
{
    let mut rng = rand::rngs::StdRng::seed_from_u64(seed);
    Fq::rand(&mut rng).into_bigint().0.to_vec()
}

/// Relies on rand's `StdRng::seed_from_u64`, ark-ff's `UniformRand` for `Fr`
/// and `into_bigint`: the same seed gives the same scalar, whose canonical
/// representative lies below the group order.
#[verifier::external_body]
fn sample_scalar_limbs(seed: u64) -> (r: Vec<u64>)
    ensures
        limbs_value(r@) == scalar_sample_of(seed),
        limbs_value(r@) < curve_order(),
{
    let mut rng = rand::rngs::StdRng::seed_from_u64(seed);
    Fr::rand(&mut rng).into_bigint().0.to_vec()
}

/// A base field element drawn from `seed`: always the same for one seed,
/// and below the field modulus.
pub fn random_field_element(seed: u64) -> (r: BigUnsigned)
    ensures
        r@ == field_sample_of(seed),
        r@ < field_modulus(),
{
    BigUnsigned::from_limbs(sample_field_limbs(seed))
}

/// A scalar drawn from `seed`: always the same for one seed, and below the
/// group order.
pub fn random_scalar(seed: u64) -> (r: BigUnsigned)
    ensures
        r@ == scalar_sample_of(seed),
        r@ < curve_order(),
{
    BigUnsigned::from_limbs(sample_scalar_limbs(seed))
}

/// The two 64-bit limbs of `n`, least significant first; fails when `n` is
/// 2^128 or more.
pub fn split_128(n: &BigUnsigned) -> (r: Result<Vec<u64>, CodecError>)
    ensures
        n@ < half_base() ==> (r matches Ok(v) && v@.len() == 2 && v@[0] + limb_base() * v@[1] == n@),
        n@ >= half_base() ==> r == Err::<Vec<u64>, CodecError>(CodecError::Overflow),
{
    proof {
        assert(half_base() < crate::types::pow2_256()) by (nonlinear_arith)
            requires
                half_base() == limb_base() * limb_base(),
                crate::types::pow2_256() == half_base() * half_base(),
                limb_base() > 1,
        ;
    }
    match pack_384(n) {
        Ok(w) => {
            proof {
                lemma_codec_round_trip(n@);
                let b = limb_base() as int;
                let rest = w.limb2 + b * w.limb3;
                lemma_digit_below(b, w.limb0 as int, w.limb1 + b * rest, b);
                lemma_digit_below(b, w.limb1 as int, rest, 1);
                lemma_digit_below(b, w.limb2 as int, w.limb3 as int, 1);
                assert(w.limb0 + b * (w.limb1 + b * rest) < b * b <==> rest == 0) by {
                    assert(b * (b * 1) == b * b);
                }
            }
            if w.limb2 == 0 && w.limb3 == 0 {
                Ok(vec![w.limb0, w.limb1])
            } else {
                Err(CodecError::Overflow)
            }
        },
        Err(e) => Err(e),
    }
}

/// The text of `p` as a point literal of the verifier's language.
pub open spec fn point_text(p: (nat, nat)) -> Seq<char> {
    "G1Point { x: "@ + decimal_text(p.0) + "u.into(), y: "@ + decimal_text(p.1) + "u.into() }"@
}

/// Writes `point` as a point literal of the verifier's language.
pub fn serialize_point(point: &Point) -> (r: String)
    ensures
        r@ == point_text(point@),
{
    let mut out = String::from_str("G1Point { x: ");
    out.append(point.x.to_decimal().as_str());
    out.append("u.into(), y: ");
    out.append(point.y.to_decimal().as_str());
    out.append("u.into() }");
    out
}

} // verus!
