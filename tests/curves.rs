use ed25519_test_generator::curves::{ED25519Constants, Point};
use ed25519_test_generator::generators::signature_generator::{generate_ecdsa_test, ECDSASignature};
use ed25519_test_generator::utils::{random_field_element, random_scalar, serialize_point};
use num_bigint::BigUint;

const P: &str = "57896044618658097711785492504343953926634992332820282019728792003956564819949";
const R: &str = "7237005577332262213973186563042994240857116359379907606001950938285454250989";
const GX: &str = "15112221349535400772501151409588531511454012693041857206046113283949847762202";
const GY: &str = "46316835694926478169428394003475163141307993866256225615783033603165251855960";

fn big(s: &str) -> BigUint {
    BigUint::parse_bytes(s.as_bytes(), 10).unwrap()
}

#[test]
fn constants_of_the_curve() {
    let c = ED25519Constants::new();
    assert_eq!(c.curve_id, 3);
    assert_eq!(c.field_modulus.to_decimal(), P);
    assert_eq!(c.curve_order.to_decimal(), R);
}

#[test]
fn generator_coordinates() {
    let g = Point::get_generator();
    assert_eq!(g.x.to_decimal(), GX);
    assert_eq!(g.y.to_decimal(), GY);
}

#[test]
fn scalar_mul_one_is_generator() {
    let g = Point::get_generator();
    let one = Point::scalar_mul(1);
    assert_eq!(one.x.to_decimal(), g.x.to_decimal());
    assert_eq!(one.y.to_decimal(), g.y.to_decimal());
}

#[test]
fn scalar_mul_zero_is_identity() {
    let z = Point::scalar_mul(0);
    assert_eq!(z.x.to_decimal(), "0");
    assert_eq!(z.y.to_decimal(), "1");
}

#[test]
fn scalar_mul_two_is_on_curve_and_differs() {
    let p = big(P);
    let two = Point::scalar_mul(2);
    let x = big(&two.x.to_decimal());
    let y = big(&two.y.to_decimal());
    assert!(x < p && y < p);
    assert_ne!(two.x.to_decimal(), GX);
    let d = big("37095705934669439343138083508754565189542113879843219016388785533085940283555");
    let x2 = &x * &x % &p;
    let y2 = &y * &y % &p;
    let lhs = (&y2 + &p - &x2) % &p;
    let rhs = (BigUint::from(1u32) + &d * &x2 % &p * &y2) % &p;
    assert_eq!(lhs, rhs);
    let gx = big(GX);
    let gy = big(GY);
    let inv = |a: &BigUint| a.modpow(&(&p - BigUint::from(2u32)), &p);
    let t = &d * &gx % &p * &gx % &p * &gy % &p * &gy % &p;
    let one = BigUint::from(1u32);
    let ex = BigUint::from(2u32) * &gx * &gy % &p * inv(&((&one + &t) % &p)) % &p;
    let ey = (&gy * &gy + &gx * &gx) % &p * inv(&((&one + &p - &t) % &p)) % &p;
    assert_eq!(x, ex);
    assert_eq!(y, ey);
}

#[test]
fn infinity_is_zero_pair() {
    let i = Point::infinity();
    assert_eq!(i.x.to_decimal(), "0");
    assert_eq!(i.y.to_decimal(), "0");
}

#[test]
fn samplers_stay_in_range() {
    let p = big(P);
    let r = big(R);
    for seed in [0u64, 1, 2, 17, 1000, u64::MAX] {
        assert!(big(&random_field_element(seed).to_decimal()) < p);
        assert!(big(&random_scalar(seed).to_decimal()) < r);
    }
}

#[test]
fn samplers_are_deterministic() {
    for seed in [0u64, 5, u64::MAX - 1] {
        assert_eq!(random_field_element(seed).to_decimal(), random_field_element(seed).to_decimal());
        assert_eq!(random_scalar(seed).to_decimal(), random_scalar(seed).to_decimal());
        let a = Point::gen_random_point(seed);
        let b = Point::gen_random_point(seed);
        assert_eq!(a.x.to_decimal(), b.x.to_decimal());
        assert_eq!(a.y.to_decimal(), b.y.to_decimal());
    }
    assert_ne!(random_scalar(0).to_decimal(), random_scalar(1).to_decimal());
}

#[test]
fn point_text() {
    let g = Point::get_generator();
    assert_eq!(serialize_point(&g), format!("G1Point {{ x: {}u.into(), y: {}u.into() }}", GX, GY));
    assert_eq!(serialize_point(&Point::infinity()), "G1Point { x: 0u.into(), y: 0u.into() }");
}

#[test]
fn sample_follows_seed_offsets() {
    let sig = ECDSASignature::sample(7);
    assert_eq!(sig.v, 1);
    assert_eq!(sig.r.to_decimal(), random_scalar(2007).to_decimal());
    assert_eq!(sig.s.to_decimal(), random_scalar(3007).to_decimal());
    assert_eq!(sig.z.to_decimal(), random_scalar(4007).to_decimal());
    let pk = Point::gen_random_point(1007);
    assert_eq!(sig.px.to_decimal(), pk.x.to_decimal());
    assert_eq!(sig.py.to_decimal(), pk.y.to_decimal());
    assert_eq!(ECDSASignature::sample(10).v, 0);
    let wrapped = ECDSASignature::sample(u64::MAX);
    assert_eq!(wrapped.r.to_decimal(), random_scalar(1999).to_decimal());
}

#[test]
fn signature_text_layout() {
    let sig = ECDSASignature::sample(3);
    let expected = format!(
        "{{ r: {}u.into(), s: {}u.into(), v: {}, px: {}u.into(), py: {}u.into(), z: {}u.into() }}",
        sig.r.to_decimal(),
        sig.s.to_decimal(),
        sig.v,
        sig.px.to_decimal(),
        sig.py.to_decimal(),
        sig.z.to_decimal()
    );
    assert_eq!(sig.serialize_with_hints(), expected);
}

#[test]
fn generated_test_is_deterministic_and_complete() {
    let a = generate_ecdsa_test(42);
    let b = generate_ecdsa_test(42);
    assert_eq!(a, b);
    assert_ne!(a, generate_ecdsa_test(43));
    assert!(a.starts_with("#[cfg(test)]\nmod ecdsa_tests {\n    use garaga::ecdsa::*;\n"));
    assert!(a.contains(&format!("array!{}.span();\n", ECDSASignature::sample(42).serialize_with_hints())));
    assert!(a.contains("is_valid_ecdsa_signature(ecdsa_with_hints, 3);\n"));
    assert!(a.ends_with("        assert!(is_valid);\n    }\n}\n"));
}
