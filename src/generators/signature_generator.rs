use vstd::prelude::*;
use vstd::string::StringExecFns;
use crate::bignum::{BigUnsigned, decimal_text};
use crate::curves::{ED25519Constants, Point, random_point_of};
use crate::utils::{random_scalar, scalar_sample_of};

verus! {

/// `seed + k`, wrapping at 2^64: the seed of an independent stream.
pub open spec fn seed_offset(seed: u64, k: u64) -> u64 {
    ((seed + k) % 0x1_0000_0000_0000_0000) as u64
}

fn offset_seed(seed: u64, k: u64) -> (r: u64)
    ensures
        r == seed_offset(seed, k),
{
    seed.wrapping_add(k)
}

/// A synthetic signature over the curve. Its values are drawn at random and
/// do not satisfy any signing equation.
pub struct ECDSASignature {
    pub r: BigUnsigned,
    pub s: BigUnsigned,
    pub v: u8,
    pub px: BigUnsigned,
    pub py: BigUnsigned,
    /// The message digest.
    pub z: BigUnsigned,
}

/// The text of a signature's values as a record literal.
pub open spec fn signature_text(r: nat, s: nat, v: nat, px: nat, py: nat, z: nat) -> Seq<char> {
    "{ r: "@ + decimal_text(r) + "u.into(), s: "@ + decimal_text(s) + "u.into(), v: "@
        + decimal_text(v) + ", px: "@ + decimal_text(px) + "u.into(), py: "@ + decimal_text(py)
        + "u.into(), z: "@ + decimal_text(z) + "u.into() }"@
}

/// The text of the signature that [`ECDSASignature::sample`] draws from `seed`.
pub open spec fn sampled_signature_text(seed: u64) -> Seq<char> {
    signature_text(
        scalar_sample_of(seed_offset(seed, 2000)),
        scalar_sample_of(seed_offset(seed, 3000)),
        (seed % 2) as nat,
        random_point_of(seed_offset(seed, 1000)).0,
        random_point_of(seed_offset(seed, 1000)).1,
        scalar_sample_of(seed_offset(seed, 4000)),
    )
}

/// The test source that [`generate_ecdsa_test`] writes for `seed`.
pub open spec fn ecdsa_test_text(seed: u64) -> Seq<char> {
    "#[cfg(test)]\nmod ecdsa_tests {\n"@ + "    use garaga::ecdsa::*;\n"@
        + "    use garaga::ec_ops::G1PointImpl;\n\n"@ + "    #[test]\n    fn test_ecdsa_ED25519() {\n"@
        + "        let mut ecdsa_sig_with_hints_serialized = array!"@ + sampled_signature_text(seed)
        + ".span();\n"@
        + "        let ecdsa_with_hints = Serde::<ECDSASignatureWithHint>::deserialize(ref ecdsa_sig_with_hints_serialized).expect('FailToDeserialize');\n"@
        + "        let is_valid = is_valid_ecdsa_signature(ecdsa_with_hints, "@ + decimal_text(3)
        + ");\n"@ + "        assert!(is_valid);\n"@ + "    }\n}\n"@
}

impl ECDSASignature {
    /// Draws a signature from `seed`: the public key from `seed + 1000`, `r`,
    /// `s` and `z` from `seed + 2000`, `seed + 3000` and `seed + 4000`
    /// (wrapping), and `v` as the parity of `seed`.
    pub fn sample(seed: u64) -> (r: ECDSASignature)
        ensures
            (r.px@, r.py@) == random_point_of(seed_offset(seed, 1000)),
            r.r@ == scalar_sample_of(seed_offset(seed, 2000)),
            r.s@ == scalar_sample_of(seed_offset(seed, 3000)),
            r.z@ == scalar_sample_of(seed_offset(seed, 4000)),
            r.v == seed % 2,
    {
        let public_key = Point::gen_random_point(offset_seed(seed, 1000));
        let r = random_scalar(offset_seed(seed, 2000));
        let s = random_scalar(offset_seed(seed, 3000));
        let z = random_scalar(offset_seed(seed, 4000));
        let v = (seed % 2) as u8;
        ECDSASignature { r, s, v, px: public_key.x, py: public_key.y, z }
    }

    /// Writes the signature as a record literal of the verifier's language.
    pub fn serialize_with_hints(&self) -> (r: String)
        ensures
            r@ == signature_text(self.r@, self.s@, self.v as nat, self.px@, self.py@, self.z@),
    {
        let mut out = String::from_str("{ r: ");
        out.append(self.r.to_decimal().as_str());
        out.append("u.into(), s: ");
        out.append(self.s.to_decimal().as_str());
        out.append("u.into(), v: ");
        out.append(BigUnsigned::from_u64(self.v as u64).to_decimal().as_str());
        out.append(", px: ");
        out.append(self.px.to_decimal().as_str());
        out.append("u.into(), py: ");
        out.append(self.py.to_decimal().as_str());
        out.append("u.into(), z: ");
        out.append(self.z.to_decimal().as_str());
        out.append("u.into() }");
        out
    }
}

/// The source of a test module that feeds the signature drawn from `seed`
/// to the verifier of this curve.
pub fn generate_ecdsa_test(seed: u64) -> (r: String)
    ensures
        r@ == ecdsa_test_text(seed),
{
    let constants = ED25519Constants::new();
    let ecdsa_sig = ECDSASignature::sample(seed);
    let mut code = String::new();
    code.append("#[cfg(test)]\nmod ecdsa_tests {\n");
    code.append("    use garaga::ecdsa::*;\n");
    code.append("    use garaga::ec_ops::G1PointImpl;\n\n");
    code.append("    #[test]\n    fn test_ecdsa_ED25519() {\n");
    code.append("        let mut ecdsa_sig_with_hints_serialized = array!");
    code.append(ecdsa_sig.serialize_with_hints().as_str());
    code.append(".span();\n");
    code.append(
        "        let ecdsa_with_hints = Serde::<ECDSASignatureWithHint>::deserialize(ref ecdsa_sig_with_hints_serialized).expect('FailToDeserialize');\n",
    );
    code.append("        let is_valid = is_valid_ecdsa_signature(ecdsa_with_hints, ");
    code.append(BigUnsigned::from_u64(constants.curve_id as u64).to_decimal().as_str());
    code.append(");\n");
    code.append("        assert!(is_valid);\n");
    code.append("    }\n}\n");
    code
}

/// The text generated for one seed is the same on every call.
pub proof fn lemma_generation_deterministic(seed: u64, a: Seq<char>, b: Seq<char>)
    requires
        a == ecdsa_test_text(seed),
        b == ecdsa_test_text(seed),
    ensures
        a == b,
{
}

} // verus!
