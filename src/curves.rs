use vstd::prelude::*;
use vstd::arithmetic::power::{pow, lemma1_pow};
use ark_ec::{CurveGroup, PrimeGroup};
use ark_ed25519::{EdwardsProjective, Fq, Fr};
use ark_ff::PrimeField;
use ark_std::UniformRand;
use rand::SeedableRng;
use crate::bignum::{BigUnsigned, limbs_value};
use crate::types::{half_base, pow2_256};

verus! {

/// The modulus of the base field, 2^255 - 19.
pub open spec fn field_modulus() -> nat {
    (pow2_256() / 2 - 19) as nat
}

/// The order of the prime-order group, 2^252 + 27742317777372353535851937790883648493.
pub open spec fn curve_order() -> nat {
    pow2_256() / 16 + 27742317777372353535851937790883648493
}

/// The curve coefficient d = -121665 / 121666 in the base field.
pub open spec fn coeff_d() -> nat {
    109014481914921826637217330734730700952 * half_base() + 581746193016579820166537227703777443
}

/// The standard base point of the curve.
pub open spec fn generator_point() -> (nat, nat) {
    (
        44410827061887073916105350349541792860 * half_base() + 139801444470765215774282931664016758042,
        136112946768375385385349842972707284582 * half_base() + 136112946768375385385349842972707284568,
    )
}

/// The identity of the curve group in affine coordinates.
pub open spec fn identity_point() -> (nat, nat) {
    (0, 1)
}

/// The inverse of `a` in the base field (by Fermat's little theorem).
pub open spec fn field_inverse(a: int) -> int {
    pow(a, (field_modulus() - 2) as nat) % (field_modulus() as int)
}

/// `n / m` in the base field.
pub open spec fn field_div(n: int, m: int) -> nat {
    ((n * field_inverse(m)) % (field_modulus() as int)) as nat
}

/// The sum of two affine points under the twisted Edwards addition law of
/// -x^2 + y^2 = 1 + d x^2 y^2.
pub open spec fn edwards_add(a: (nat, nat), b: (nat, nat)) -> (nat, nat) {
    let t = (coeff_d() * a.0 * b.0 * a.1 * b.1) as int;
    (field_div((a.0 * b.1 + a.1 * b.0) as int, 1 + t), field_div((a.1 * b.1 + a.0 * b.0) as int, 1 - t))
}

/// `k` times the generator, in affine coordinates.
pub open spec fn generator_multiple(k: nat) -> (nat, nat)
    decreases k,
{
    if k == 0 {
        identity_point()
    } else {
        edwards_add(generator_multiple((k - 1) as nat), generator_point())
    }
}

/// Whether `p` is a multiple of the generator, by a factor below the group order.
pub open spec fn in_prime_group(p: (nat, nat)) -> bool {
    exists|k: nat| k < curve_order() && #[trigger] generator_multiple(k) == p
}

/// The affine point that ark's `EdwardsProjective` sampler draws from a
/// `StdRng` seeded with `seed`.
pub uninterp spec fn random_point_of(seed: u64) -> (nat, nat);

/// One times the generator is the generator.
pub proof fn lemma_scalar_mul_one()
    ensures
        generator_multiple(1) == generator_point(),
{
    let p = field_modulus() as int;
    let g = generator_point();
    reveal_with_fuel(generator_multiple, 2);
    lemma1_pow((field_modulus() - 2) as nat);
    assert(pow2_256() == 0x1_0000_0000_0000_0000nat * 0x1_0000_0000_0000_0000nat * 0x1_0000_0000_0000_0000nat * 0x1_0000_0000_0000_0000nat);
    assert(field_modulus() > 1);
    vstd::arithmetic::div_mod::lemma_small_mod(1, field_modulus());
    assert(field_inverse(1) == 1);
    let a = identity_point();
    assert(generator_multiple(1) == edwards_add(a, g));
    let (x, y, d) = (g.0, g.1, coeff_d());
    assert(d * 0 * x * 1 * y == 0 && 0 * y + 1 * x == x && 1 * y + 0 * x == y) by (nonlinear_arith);
    assert(g.0 < p && g.1 < p);
    vstd::arithmetic::div_mod::lemma_small_mod(g.0, p as nat);
    vstd::arithmetic::div_mod::lemma_small_mod(g.1, p as nat);
    assert(field_div(g.0 as int, 1) == g.0);
    assert(field_div(g.1 as int, 1) == g.1);
}

/// Relies on ark-ed25519's `EdwardsProjective::generator()` and ark-ec's
/// `into_affine`: the standard base point, whose coordinates the crate states.
#[verifier::external_body]
fn generator_coordinates() -> (r: (Vec<u64>, Vec<u64>))
    ensures
        (limbs_value(r.0@), limbs_value(r.1@)) == generator_point(),
{
    let g = EdwardsProjective::generator().into_affine();
    (g.x.into_bigint().0.to_vec(), g.y.into_bigint().0.to_vec())
}

/// Relies on ark-ec's scalar multiplication of `EdwardsProjective` by an `Fr`
/// made from `k`, and on `into_affine`: `k` times the generator, with each
/// coordinate as its canonical representative below the field modulus.
#[verifier::external_body]
fn generator_multiple_coordinates(k: u64) -> (r: (Vec<u64>, Vec<u64>))
    ensures
        (limbs_value(r.0@), limbs_value(r.1@)) == generator_multiple(k as nat),
{
    let g = (EdwardsProjective::generator() * Fr::from(k)).into_affine();
    (g.x.into_bigint().0.to_vec(), g.y.into_bigint().0.to_vec())
}

/// Relies on rand's `StdRng::seed_from_u64` and ark-ec's `UniformRand` for
/// `EdwardsProjective`, which multiplies a point by the cofactor into the
/// prime-order group: the same seed gives the same point, a multiple of the
/// generator, with canonical coordinates.
#[verifier::external_body]
fn random_point_coordinates(seed: u64) -> (r: (Vec<u64>, Vec<u64>))
    ensures
        (limbs_value(r.0@), limbs_value(r.1@)) == random_point_of(seed),
        in_prime_group((limbs_value(r.0@), limbs_value(r.1@))),
{
    let mut rng = rand::rngs::StdRng::seed_from_u64(seed);
    let g = EdwardsProjective::rand(&mut rng).into_affine();
    (g.x.into_bigint().0.to_vec(), g.y.into_bigint().0.to_vec())
}

/// Relies on ark-ed25519's `Fq::MODULUS`, stated in its source as
/// 57896044618658097711785492504343953926634992332820282019728792003956564819949.
#[verifier::external_body]
fn field_modulus_limbs() -> (r: Vec<u64>)
    ensures
        limbs_value(r@) == field_modulus(),
{
    Fq::MODULUS.0.to_vec()
}

/// Relies on ark-ed25519's `Fr::MODULUS`, stated in its source as
/// 7237005577332262213973186563042994240857116359379907606001950938285454250989.
#[verifier::external_body]
fn curve_order_limbs() -> (r: Vec<u64>)
    ensures
        limbs_value(r@) == curve_order(),
{
    Fr::MODULUS.0.to_vec()
}

/// A point of the curve by its affine coordinates; (0, 0) stands for the
/// point at infinity.
#[derive(Clone, Debug)]
pub struct Point {
    pub x: BigUnsigned,
    pub y: BigUnsigned,
}

impl View for Point {
    type V = (nat, nat);

    open spec fn view(&self) -> (nat, nat) {
        (self.x@, self.y@)
    }
}

impl Point {
    /// The (0, 0) marker of the point at infinity.
    pub fn infinity() -> (r: Point)
        ensures
            r@ == (0nat, 0nat),
    {
        Point { x: BigUnsigned::from_u64(0), y: BigUnsigned::from_u64(0) }
    }

    /// The point drawn from `seed`: the same seed gives the same point, and
    /// it is a multiple of the generator below the group order.
    pub fn gen_random_point(seed: u64) -> (r: Point)
        ensures
            r@ == random_point_of(seed),
            in_prime_group(r@),
    {
        let (x, y) = random_point_coordinates(seed);
        Point { x: BigUnsigned::from_limbs(x), y: BigUnsigned::from_limbs(y) }
    }

    /// The generator of the curve group.
    pub fn get_generator() -> (r: Point)
        ensures
            r@ == generator_point(),
    {
        let (x, y) = generator_coordinates();
        Point { x: BigUnsigned::from_limbs(x), y: BigUnsigned::from_limbs(y) }
    }

    /// `scalar` times the generator.
    pub fn scalar_mul(scalar: u64) -> (r: Point)
        ensures
            r@ == generator_multiple(scalar as nat),
    {
        let (x, y) = generator_multiple_coordinates(scalar);
        Point { x: BigUnsigned::from_limbs(x), y: BigUnsigned::from_limbs(y) }
    }
}

/// The tag of this curve in the verifier's list of curves.
pub const ED25519_CURVE_ID: usize = 3;

/// The fixed parameters of the curve.
pub struct ED25519Constants {
    pub curve_id: usize,
    pub field_modulus: BigUnsigned,
    pub curve_order: BigUnsigned,
}

impl ED25519Constants {
    /// The curve's tag, field modulus and group order.
    pub fn new() -> (r: ED25519Constants)
        ensures
            r.curve_id == 3,
            r.field_modulus@ == field_modulus(),
            r.curve_order@ == curve_order(),
    {
        ED25519Constants {
            curve_id: ED25519_CURVE_ID,
            field_modulus: BigUnsigned::from_limbs(field_modulus_limbs()),
            curve_order: BigUnsigned::from_limbs(curve_order_limbs()),
        }
    }
}

} // verus!
