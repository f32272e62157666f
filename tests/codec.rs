use ed25519_test_generator::bignum::BigUnsigned;
use ed25519_test_generator::codec::{pack_256, pack_384, unpack_256, unpack_384, CodecError};
use ed25519_test_generator::types::{U256, U384};
use ed25519_test_generator::utils::split_128;

const MAX: u64 = u64::MAX;

#[test]
fn pack_256_splits_halves() {
    let n = BigUnsigned::from_limbs(vec![1, 2, 3, 4]);
    let u = pack_256(&n).unwrap();
    assert_eq!(u, U256 { low: 1 + (2u128 << 64), high: 3 + (4u128 << 64) });
}

#[test]
fn pack_384_keeps_limbs() {
    let n = BigUnsigned::from_limbs(vec![9, 8, 7]);
    assert_eq!(pack_384(&n).unwrap(), U384 { limb0: 9, limb1: 8, limb2: 7, limb3: 0 });
    let padded = BigUnsigned::from_limbs(vec![5, 0, 0, 6, 0, 0]);
    assert_eq!(pack_384(&padded).unwrap(), U384 { limb0: 5, limb1: 0, limb2: 0, limb3: 6 });
}

#[test]
fn largest_value_packs() {
    let n = BigUnsigned::from_limbs(vec![MAX, MAX, MAX, MAX]);
    assert_eq!(pack_256(&n).unwrap(), U256 { low: u128::MAX, high: u128::MAX });
    assert_eq!(pack_384(&n).unwrap(), U384 { limb0: MAX, limb1: MAX, limb2: MAX, limb3: MAX });
}

#[test]
fn pack_overflow_at_two_to_256() {
    let n = BigUnsigned::from_limbs(vec![0, 0, 0, 0, 1]);
    assert_eq!(pack_256(&n), Err(CodecError::Overflow));
    assert_eq!(pack_384(&n), Err(CodecError::Overflow));
    let far = BigUnsigned::from_limbs(vec![1, 2, 3, 4, 0, 0, 7]);
    assert_eq!(pack_384(&far), Err(CodecError::Overflow));
}

#[test]
fn empty_limbs_are_zero() {
    let n = BigUnsigned::from_limbs(vec![]);
    assert_eq!(pack_256(&n).unwrap(), U256 { low: 0, high: 0 });
    assert!(pack_384(&n).unwrap().is_zero());
    assert_eq!(n.to_decimal(), "0");
}

#[test]
fn codec_round_trip_values() {
    for limbs in [vec![], vec![42], vec![MAX, 1], vec![3, MAX, 0, MAX], vec![MAX, MAX, MAX, MAX]] {
        let n = BigUnsigned::from_limbs(limbs);
        let a = unpack_256(&pack_256(&n).unwrap());
        let b = unpack_384(&pack_384(&n).unwrap());
        assert_eq!(a.to_decimal(), n.to_decimal());
        assert_eq!(b.to_decimal(), n.to_decimal());
    }
}

#[test]
fn unpack_256_value() {
    let u = U256 { low: 1, high: 1 };
    assert_eq!(unpack_256(&u).to_decimal(), "340282366920938463463374607431768211457");
}

#[test]
fn decimal_of_two_to_64() {
    assert_eq!(BigUnsigned::from_limbs(vec![0, 1]).to_decimal(), "18446744073709551616");
    assert_eq!(BigUnsigned::from_u64(1234567890).to_decimal(), "1234567890");
}

#[test]
fn split_128_low_and_high() {
    let n = BigUnsigned::from_limbs(vec![7, 9, 0]);
    assert_eq!(split_128(&n).unwrap(), vec![7, 9]);
    assert_eq!(split_128(&BigUnsigned::from_u64(5)).unwrap(), vec![5, 0]);
}

#[test]
fn split_128_overflow() {
    let n = BigUnsigned::from_limbs(vec![7, 9, 1]);
    assert_eq!(split_128(&n), Err(CodecError::Overflow));
    let huge = BigUnsigned::from_limbs(vec![0, 0, 0, 0, 0, 1]);
    assert_eq!(split_128(&huge), Err(CodecError::Overflow));
}
