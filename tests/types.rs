use ed25519_test_generator::codec::CodecError;
use ed25519_test_generator::types::{
    DerivePointFromXHint, ECDSASignature, ECDSASignatureWithHint, G1Point, MSMHint, U256, U384,
};

fn sample_record() -> ECDSASignatureWithHint {
    let signature = ECDSASignature {
        rx: U384 { limb0: 1, limb1: 2, limb2: 3, limb3: 4 },
        s: U256 { low: 5, high: 6 },
        v: true,
        px: U384 { limb0: 7, limb1: 8, limb2: 9, limb3: 10 },
        py: U384 { limb0: 11, limb1: 12, limb2: 13, limb3: 14 },
        z: U256 { low: 15, high: 16 },
    };
    let msm_hint = MSMHint {
        result: G1Point {
            x: U384 { limb0: 17, limb1: 18, limb2: 19, limb3: 20 },
            y: U384 { limb0: 21, limb1: 22, limb2: 23, limb3: 24 },
        },
    };
    let msm_derive_hint = DerivePointFromXHint { y: U384 { limb0: 25, limb1: 26, limb2: 27, limb3: 28 } };
    ECDSASignatureWithHint { signature, msm_hint, msm_derive_hint }
}

#[test]
fn test_ecdsa_signature_with_hint_serialization() {
    let sig_with_hint = sample_record();

    let mut serialized = Vec::new();
    sig_with_hint.serialize(&mut serialized);

    assert!(!serialized.is_empty());

    let deserialized = ECDSASignatureWithHint::deserialize(serialized.as_slice(), 0);

    assert!(deserialized.is_ok());
    let (deserialized_sig, _) = deserialized.unwrap();
    assert_eq!(sig_with_hint, deserialized_sig);
}

#[test]
fn record_tokens_in_field_order() {
    let mut out = Vec::new();
    sample_record().serialize(&mut out);
    let mut expected: Vec<u128> = (1..=6).collect();
    expected.push(1);
    expected.extend(7..=28);
    assert_eq!(out, expected);
    assert_eq!(out.len(), 29);
}

#[test]
fn record_round_trip_reports_next_position() {
    let mut out = vec![99u128];
    sample_record().serialize(&mut out);
    out.push(7);
    let (back, next) = ECDSASignatureWithHint::deserialize(out.as_slice(), 1).unwrap();
    assert_eq!(back, sample_record());
    assert_eq!(next, 30);
}

#[test]
fn false_flag_is_token_zero() {
    let mut rec = sample_record();
    rec.signature.v = false;
    let mut out = Vec::new();
    rec.signature.serialize(&mut out);
    assert_eq!(out[6], 0);
    let (back, next) = ECDSASignature::deserialize(out.as_slice(), 0).unwrap();
    assert_eq!(back, rec.signature);
    assert_eq!(next, 17);
}

#[test]
fn short_stream_is_truncated() {
    let mut out = Vec::new();
    sample_record().serialize(&mut out);
    out.pop();
    assert_eq!(ECDSASignatureWithHint::deserialize(out.as_slice(), 0), Err(CodecError::TruncatedInput));
    assert_eq!(G1Point::deserialize(&[1, 2, 3, 4, 5, 6, 7], 0), Err(CodecError::TruncatedInput));
    assert_eq!(U384::deserialize(&[1, 2, 3, 4], 1), Err(CodecError::TruncatedInput));
    assert_eq!(U256::deserialize(&[], 0), Err(CodecError::TruncatedInput));
    assert_eq!(U256::deserialize(&[1, 2], 5), Err(CodecError::TruncatedInput));
}

#[test]
fn oversized_tokens_overflow() {
    let big = 1u128 << 64;
    assert_eq!(U384::deserialize(&[1, 2, big, 4], 0), Err(CodecError::Overflow));
    let mut out = Vec::new();
    sample_record().serialize(&mut out);
    out[6] = 2;
    assert_eq!(ECDSASignatureWithHint::deserialize(out.as_slice(), 0), Err(CodecError::Overflow));
    let (w, next) = U256::deserialize(&[big, u128::MAX], 0).unwrap();
    assert_eq!(w, U256 { low: big, high: u128::MAX });
    assert_eq!(next, 2);
}

#[test]
fn is_zero_only_for_all_zero_limbs() {
    assert!(U384 { limb0: 0, limb1: 0, limb2: 0, limb3: 0 }.is_zero());
    assert!(!U384 { limb0: 0, limb1: 0, limb2: 0, limb3: 1 }.is_zero());
    assert!(!U384 { limb0: 1, limb1: 0, limb2: 0, limb3: 0 }.is_zero());
}

#[test]
fn hint_records_round_trip() {
    let rec = sample_record();
    let mut out = Vec::new();
    rec.msm_hint.serialize(&mut out);
    rec.msm_derive_hint.serialize(&mut out);
    let (m, p) = MSMHint::deserialize(out.as_slice(), 0).unwrap();
    let (d, q) = DerivePointFromXHint::deserialize(out.as_slice(), p).unwrap();
    assert_eq!((m, p), (rec.msm_hint, 8));
    assert_eq!((d, q), (rec.msm_derive_hint, 12));
}
