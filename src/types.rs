use vstd::prelude::*;
use crate::bignum::limb_base;
use crate::codec::CodecError;

verus! {

/// 2^128, the base of one half of a [`U256`].
pub open spec fn half_base() -> nat {
    limb_base() * limb_base()
}

/// 2^256, one past the largest value that the fixed-width types carry.
pub open spec fn pow2_256() -> nat {
    half_base() * half_base()
}

/// A 384-bit-capacity integer of four 64-bit limbs, least significant first.
#[derive(Clone, Copy, Debug, PartialEq, Eq, Structural)]
pub struct U384 {
    pub limb0: u64,
    pub limb1: u64,
    pub limb2: u64,
    pub limb3: u64,
}

impl View for U384 {
    type V = nat;

    open spec fn view(&self) -> nat {
        let b = limb_base();
        (self.limb0 + b * (self.limb1 + b * (self.limb2 + b * self.limb3))) as nat
    }
}

impl U384 {
    /// The limbs of `n` below 2^256; the top limbs stay zero.
    pub open spec fn from_nat(n: nat) -> U384 {
        let b = limb_base();
        U384 {
            limb0: (n % b) as u64,
            limb1: ((n / b) % b) as u64,
            limb2: ((n / b / b) % b) as u64,
            limb3: ((n / b / b / b) % b) as u64,
        }
    }

    /// True when every limb is zero, that is when the value is zero.
    pub fn is_zero(&self) -> (r: bool)
        ensures
            r == (self.limb0 == 0 && self.limb1 == 0 && self.limb2 == 0 && self.limb3 == 0),
            r == (self@ == 0),
    {
        self.limb0 == 0 && self.limb1 == 0 && self.limb2 == 0 && self.limb3 == 0
    }
}

/// A 256-bit integer of two 128-bit halves: `low + high * 2^128`.
#[derive(Clone, Copy, Debug, PartialEq, Eq, Structural)]
pub struct U256 {
    pub low: u128,
    pub high: u128,
}

impl View for U256 {
    type V = nat;

    open spec fn view(&self) -> nat {
        (self.low + half_base() * self.high) as nat
    }
}

impl U256 {
    /// The halves of `n` below 2^256.
    pub open spec fn from_nat(n: nat) -> U256 {
        U256 { low: (n % half_base()) as u128, high: ((n / half_base()) % half_base()) as u128 }
    }
}


/// Whether `t` is a limb token of a [`U384`].
pub open spec fn limb_token_fits(t: u128) -> bool {
    t <= 0xffff_ffff_ffff_ffff
}

/// The token of a boolean: 1 for true, 0 for false.
pub open spec fn bool_token(b: bool) -> u128 {
    if b {
        1
    } else {
        0
    }
}

/// Whether `t` is the token of a boolean.
pub open spec fn bool_token_fits(t: u128) -> bool {
    t <= 1
}

/// What reading a value of `size` tokens at `pos` of `t` must give:
/// `TruncatedInput` when fewer than `size` tokens are left, `Overflow` when a
/// token is too large for its field, and otherwise the value whose tokens
/// (`enc`) are exactly those `size` tokens, with the position after them.
pub open spec fn read_outcome<T>(
    r: Result<(T, usize), CodecError>,
    enc: spec_fn(T) -> Seq<u128>,
    t: Seq<u128>,
    pos: int,
    size: int,
    fits: spec_fn(Seq<u128>) -> bool,
) -> bool {
    if pos + size > t.len() {
        r == Err::<(T, usize), CodecError>(CodecError::TruncatedInput)
    } else if !fits(t.subrange(pos, pos + size)) {
        r == Err::<(T, usize), CodecError>(CodecError::Overflow)
    } else {
        match r {
            Ok((v, next)) => enc(v) == t.subrange(pos, pos + size) && next == pos + size,
            Err(_) => false,
        }
    }
}

impl U384 {
    /// Its tokens: the four limbs in order.
    pub open spec fn tokens(&self) -> Seq<u128> {
        seq![self.limb0 as u128, self.limb1 as u128, self.limb2 as u128, self.limb3 as u128]
    }

    /// Whether four tokens are the limbs of a `U384`.
    pub open spec fn fits(t: Seq<u128>) -> bool {
        limb_token_fits(t[0]) && limb_token_fits(t[1]) && limb_token_fits(t[2]) && limb_token_fits(t[3])
    }

    /// Appends its tokens to `out`.
    pub fn serialize(&self, out: &mut Vec<u128>)
        ensures
            final(out)@ == old(out)@ + self.tokens(),
    {
        out.push(self.limb0 as u128);
        out.push(self.limb1 as u128);
        out.push(self.limb2 as u128);
        out.push(self.limb3 as u128);
        assert(final(out)@ =~= old(out)@ + self.tokens());
    }

    /// Reads a `U384` at `pos` of `tokens`, with the position after it.
    pub fn deserialize(tokens: &[u128], pos: usize) -> (r: Result<(U384, usize), CodecError>)
        ensures
            read_outcome(r, |v: U384| v.tokens(), tokens@, pos as int, 4, |t: Seq<u128>| U384::fits(t)),
    {
        if pos > tokens.len() || tokens.len() - pos < 4 {
            return Err(CodecError::TruncatedInput);
        }
        let t0 = tokens[pos];
        let t1 = tokens[pos + 1];
        let t2 = tokens[pos + 2];
        let t3 = tokens[pos + 3];
        if t0 > 0xffff_ffff_ffff_ffff || t1 > 0xffff_ffff_ffff_ffff || t2 > 0xffff_ffff_ffff_ffff
            || t3 > 0xffff_ffff_ffff_ffff {
            return Err(CodecError::Overflow);
        }
        let v = U384 { limb0: t0 as u64, limb1: t1 as u64, limb2: t2 as u64, limb3: t3 as u64 };
        assert(v.tokens() =~= tokens@.subrange(pos as int, pos + 4));
        Ok((v, pos + 4))
    }
}


impl U256 {
    /// Its tokens: the low half, then the high half.
    pub open spec fn tokens(&self) -> Seq<u128> {
        seq![self.low, self.high]
    }

    /// Whether two tokens are the halves of a `U256`: every token is.
    pub open spec fn fits(t: Seq<u128>) -> bool {
        true
    }

    /// Appends its tokens to `out`.
    pub fn serialize(&self, out: &mut Vec<u128>)
        ensures
            final(out)@ == old(out)@ + self.tokens(),
    {
        out.push(self.low);
        out.push(self.high);
        assert(final(out)@ =~= old(out)@ + self.tokens());
    }

    /// Reads a `U256` at `pos` of `tokens`, with the position after it.
    pub fn deserialize(tokens: &[u128], pos: usize) -> (r: Result<(U256, usize), CodecError>)
        ensures
            read_outcome(r, |v: U256| v.tokens(), tokens@, pos as int, 2, |t: Seq<u128>| U256::fits(t)),
    {
        if pos > tokens.len() || tokens.len() - pos < 2 {
            return Err(CodecError::TruncatedInput);
        }
        let v = U256 { low: tokens[pos], high: tokens[pos + 1] };
        assert(v.tokens() =~= tokens@.subrange(pos as int, pos + 2));
        Ok((v, pos + 2))
    }
}

/// A point of the curve as carried on the wire: two `U384` coordinates.
#[derive(Clone, Copy, Debug, PartialEq, Eq, Structural)]
pub struct G1Point {
    pub x: U384,
    pub y: U384,
}

impl G1Point {
    /// Its tokens: those of `x`, then those of `y`.
    pub open spec fn tokens(&self) -> Seq<u128> {
        self.x.tokens() + self.y.tokens()
    }

    /// Whether eight tokens are those of a `G1Point`.
    pub open spec fn fits(t: Seq<u128>) -> bool {
        U384::fits(t.subrange(0, 4)) && U384::fits(t.subrange(4, 8))
    }

    /// Appends its tokens to `out`.
    pub fn serialize(&self, out: &mut Vec<u128>)
        ensures
            final(out)@ == old(out)@ + self.tokens(),
    {
        self.x.serialize(out);
        self.y.serialize(out);
        assert(final(out)@ =~= old(out)@ + self.tokens());
    }

    /// Reads a `G1Point` at `pos` of `tokens`, with the position after it.
    pub fn deserialize(tokens: &[u128], pos: usize) -> (r: Result<(G1Point, usize), CodecError>)
        ensures
            read_outcome(r, |v: G1Point| v.tokens(), tokens@, pos as int, 8, |t: Seq<u128>| G1Point::fits(t)),
    {
        if pos > tokens.len() || tokens.len() - pos < 8 {
            return Err(CodecError::TruncatedInput);
        }
        let ghost t = tokens@;
        let ghost w = t.subrange(pos as int, pos + 8);
        assert(w.subrange(0, 4) =~= t.subrange(pos as int, pos + 4));
        assert(w.subrange(4, 8) =~= t.subrange(pos + 4, pos + 8));
        let (x, at1) = match U384::deserialize(tokens, pos) {
            Ok(a) => a,
            Err(e) => return Err(e),
        };
        let (y, at2) = match U384::deserialize(tokens, at1) {
            Ok(a) => a,
            Err(e) => return Err(e),
        };
        let v = G1Point { x, y };
        assert(v.tokens() =~= w);
        Ok((v, at2))
    }
}

/// The `y` coordinate that lets a verifier rebuild a point from its `x`.
#[derive(Clone, Copy, Debug, PartialEq, Eq, Structural)]
pub struct DerivePointFromXHint {
    pub y: U384,
}

impl DerivePointFromXHint {
    /// Its tokens: those of `y`.
    pub open spec fn tokens(&self) -> Seq<u128> {
        self.y.tokens()
    }

    /// Whether four tokens are those of a `DerivePointFromXHint`.
    pub open spec fn fits(t: Seq<u128>) -> bool {
        U384::fits(t)
    }

    /// Appends its tokens to `out`.
    pub fn serialize(&self, out: &mut Vec<u128>)
        ensures
            final(out)@ == old(out)@ + self.tokens(),
    {
        self.y.serialize(out);
    }

    /// Reads a `DerivePointFromXHint` at `pos` of `tokens`, with the position after it.
    pub fn deserialize(tokens: &[u128], pos: usize) -> (r: Result<(DerivePointFromXHint, usize), CodecError>)
        ensures
            read_outcome(r, |v: DerivePointFromXHint| v.tokens(), tokens@, pos as int, 4,
                |t: Seq<u128>| DerivePointFromXHint::fits(t)),
    {
        match U384::deserialize(tokens, pos) {
            Ok((y, p)) => Ok((DerivePointFromXHint { y }, p)),
            Err(e) => Err(e),
        }
    }
}

/// The precomputed result point of a multi-scalar multiplication.
#[derive(Clone, Copy, Debug, PartialEq, Eq, Structural)]
pub struct MSMHint {
    pub result: G1Point,
}

impl MSMHint {
    /// Its tokens: those of `result`.
    pub open spec fn tokens(&self) -> Seq<u128> {
        self.result.tokens()
    }

    /// Whether eight tokens are those of an `MSMHint`.
    pub open spec fn fits(t: Seq<u128>) -> bool {
        G1Point::fits(t)
    }

    /// Appends its tokens to `out`.
    pub fn serialize(&self, out: &mut Vec<u128>)
        ensures
            final(out)@ == old(out)@ + self.tokens(),
    {
        self.result.serialize(out);
    }

    /// Reads an `MSMHint` at `pos` of `tokens`, with the position after it.
    pub fn deserialize(tokens: &[u128], pos: usize) -> (r: Result<(MSMHint, usize), CodecError>)
        ensures
            read_outcome(r, |v: MSMHint| v.tokens(), tokens@, pos as int, 8, |t: Seq<u128>| MSMHint::fits(t)),
    {
        match G1Point::deserialize(tokens, pos) {
            Ok((result, p)) => Ok((MSMHint { result }, p)),
            Err(e) => Err(e),
        }
    }
}

/// A signature with the public key and the message digest it belongs to.
#[derive(Clone, Copy, Debug, PartialEq, Eq, Structural)]
pub struct ECDSASignature {
    pub rx: U384,
    pub s: U256,
    pub v: bool,
    pub px: U384,
    pub py: U384,
    pub z: U256,
}

impl ECDSASignature {
    /// Its tokens: `rx`, `s`, `v`, `px`, `py`, `z` in that order.
    pub open spec fn tokens(&self) -> Seq<u128> {
        self.rx.tokens() + self.s.tokens() + seq![bool_token(self.v)] + self.px.tokens()
            + self.py.tokens() + self.z.tokens()
    }

    /// Whether seventeen tokens are those of an `ECDSASignature`.
    pub open spec fn fits(t: Seq<u128>) -> bool {
        U384::fits(t.subrange(0, 4)) && bool_token_fits(t[6]) && U384::fits(t.subrange(7, 11))
            && U384::fits(t.subrange(11, 15))
    }

    /// Appends its tokens to `out`.
    pub fn serialize(&self, out: &mut Vec<u128>)
        ensures
            final(out)@ == old(out)@ + self.tokens(),
    {
        self.rx.serialize(out);
        self.s.serialize(out);
        out.push(if self.v { 1 } else { 0 });
        self.px.serialize(out);
        self.py.serialize(out);
        self.z.serialize(out);
        assert(final(out)@ =~= old(out)@ + self.tokens());
    }

    /// Reads an `ECDSASignature` at `pos` of `tokens`, with the position after it.
    pub fn deserialize(tokens: &[u128], pos: usize) -> (r: Result<(ECDSASignature, usize), CodecError>)
        ensures
            read_outcome(r, |v: ECDSASignature| v.tokens(), tokens@, pos as int, 17,
                |t: Seq<u128>| ECDSASignature::fits(t)),
    {
        if pos > tokens.len() || tokens.len() - pos < 17 {
            return Err(CodecError::TruncatedInput);
        }
        let ghost t = tokens@;
        let ghost w = t.subrange(pos as int, pos + 17);
        assert(w.subrange(0, 4) =~= t.subrange(pos as int, pos + 4));
        assert(w.subrange(7, 11) =~= t.subrange(pos + 7, pos + 11));
        assert(w.subrange(11, 15) =~= t.subrange(pos + 11, pos + 15));
        let (rx, at1) = match U384::deserialize(tokens, pos) {
            Ok(a) => a,
            Err(e) => return Err(e),
        };
        let (s, at2) = match U256::deserialize(tokens, at1) {
            Ok(a) => a,
            Err(e) => return Err(e),
        };
        let vt = tokens[at2];
        if vt > 1 {
            return Err(CodecError::Overflow);
        }
        let v = vt == 1;
        let (px, at3) = match U384::deserialize(tokens, at2 + 1) {
            Ok(a) => a,
            Err(e) => return Err(e),
        };
        let (py, at4) = match U384::deserialize(tokens, at3) {
            Ok(a) => a,
            Err(e) => return Err(e),
        };
        let (z, at5) = match U256::deserialize(tokens, at4) {
            Ok(a) => a,
            Err(e) => return Err(e),
        };
        let sig = ECDSASignature { rx, s, v, px, py, z };
        assert(sig.tokens() =~= w);
        Ok((sig, at5))
    }
}

/// A signature with the hints that a verifier uses in place of recomputing.
#[derive(Clone, Copy, Debug, PartialEq, Eq, Structural)]
pub struct ECDSASignatureWithHint {
    pub signature: ECDSASignature,
    pub msm_hint: MSMHint,
    pub msm_derive_hint: DerivePointFromXHint,
}

impl ECDSASignatureWithHint {
    /// Its tokens: those of the signature, then of the two hints.
    pub open spec fn tokens(&self) -> Seq<u128> {
        self.signature.tokens() + self.msm_hint.tokens() + self.msm_derive_hint.tokens()
    }

    /// Whether twenty-nine tokens are those of an `ECDSASignatureWithHint`.
    pub open spec fn fits(t: Seq<u128>) -> bool {
        ECDSASignature::fits(t.subrange(0, 17)) && MSMHint::fits(t.subrange(17, 25))
            && DerivePointFromXHint::fits(t.subrange(25, 29))
    }

    /// Appends its tokens to `out`.
    pub fn serialize(&self, out: &mut Vec<u128>)
        ensures
            final(out)@ == old(out)@ + self.tokens(),
    {
        self.signature.serialize(out);
        self.msm_hint.serialize(out);
        self.msm_derive_hint.serialize(out);
        assert(final(out)@ =~= old(out)@ + self.tokens());
    }

    /// Reads an `ECDSASignatureWithHint` at `pos` of `tokens`, with the position after it.
    pub fn deserialize(tokens: &[u128], pos: usize) -> (r: Result<(ECDSASignatureWithHint, usize), CodecError>)
        ensures
            read_outcome(r, |v: ECDSASignatureWithHint| v.tokens(), tokens@, pos as int, 29,
                |t: Seq<u128>| ECDSASignatureWithHint::fits(t)),
    {
        if pos > tokens.len() || tokens.len() - pos < 29 {
            return Err(CodecError::TruncatedInput);
        }
        let ghost t = tokens@;
        let ghost w = t.subrange(pos as int, pos + 29);
        assert(w.subrange(0, 17) =~= t.subrange(pos as int, pos + 17));
        assert(w.subrange(17, 25) =~= t.subrange(pos + 17, pos + 25));
        assert(w.subrange(25, 29) =~= t.subrange(pos + 25, pos + 29));
        let (signature, at1) = match ECDSASignature::deserialize(tokens, pos) {
            Ok(a) => a,
            Err(e) => return Err(e),
        };
        let (msm_hint, at2) = match MSMHint::deserialize(tokens, at1) {
            Ok(a) => a,
            Err(e) => return Err(e),
        };
        let (msm_derive_hint, at3) = match DerivePointFromXHint::deserialize(tokens, at2) {
            Ok(a) => a,
            Err(e) => return Err(e),
        };
        let v = ECDSASignatureWithHint { signature, msm_hint, msm_derive_hint };
        assert(v.tokens() =~= w);
        Ok((v, at3))
    }
}


proof fn lemma_u384_tokens(a: U384, b: U384)
    ensures
        a.tokens().len() == 4,
        U384::fits(a.tokens()),
        a.tokens() == b.tokens() ==> a == b,
{
    if a.tokens() == b.tokens() {
        assert(a.tokens()[0] == b.tokens()[0]);
        assert(a.tokens()[1] == b.tokens()[1]);
        assert(a.tokens()[2] == b.tokens()[2]);
        assert(a.tokens()[3] == b.tokens()[3]);
    }
}

proof fn lemma_u256_tokens(a: U256, b: U256)
    ensures
        a.tokens().len() == 2,
        a.tokens() == b.tokens() ==> a == b,
{
    if a.tokens() == b.tokens() {
        assert(a.tokens()[0] == b.tokens()[0]);
        assert(a.tokens()[1] == b.tokens()[1]);
    }
}

proof fn lemma_g1_tokens(a: G1Point, b: G1Point)
    ensures
        a.tokens().len() == 8,
        G1Point::fits(a.tokens()),
        a.tokens() == b.tokens() ==> a == b,
{
    lemma_u384_tokens(a.x, b.x);
    lemma_u384_tokens(a.y, b.y);
    assert(a.tokens().subrange(0, 4) =~= a.x.tokens());
    assert(a.tokens().subrange(4, 8) =~= a.y.tokens());
    assert(b.tokens().subrange(0, 4) =~= b.x.tokens());
    assert(b.tokens().subrange(4, 8) =~= b.y.tokens());
}

proof fn lemma_signature_tokens(a: ECDSASignature, b: ECDSASignature)
    ensures
        a.tokens().len() == 17,
        ECDSASignature::fits(a.tokens()),
        a.tokens() == b.tokens() ==> a == b,
{
    lemma_u384_tokens(a.rx, b.rx);
    lemma_u256_tokens(a.s, b.s);
    lemma_u384_tokens(a.px, b.px);
    lemma_u384_tokens(a.py, b.py);
    lemma_u256_tokens(a.z, b.z);
    let ta = a.tokens();
    let tb = b.tokens();
    assert(ta.subrange(0, 4) =~= a.rx.tokens());
    assert(ta.subrange(4, 6) =~= a.s.tokens());
    assert(ta[6] == bool_token(a.v));
    assert(ta.subrange(7, 11) =~= a.px.tokens());
    assert(ta.subrange(11, 15) =~= a.py.tokens());
    assert(ta.subrange(15, 17) =~= a.z.tokens());
    assert(tb.subrange(0, 4) =~= b.rx.tokens());
    assert(tb.subrange(4, 6) =~= b.s.tokens());
    assert(tb[6] == bool_token(b.v));
    assert(tb.subrange(7, 11) =~= b.px.tokens());
    assert(tb.subrange(11, 15) =~= b.py.tokens());
    assert(tb.subrange(15, 17) =~= b.z.tokens());
}

/// Reading a record back from its own tokens gives that record: whatever
/// result meets the contract of `ECDSASignatureWithHint::deserialize` on
/// `v.tokens()` from position zero is `v`, with all twenty-nine tokens read.
pub proof fn lemma_signature_with_hint_round_trip(
    v: ECDSASignatureWithHint,
    r: Result<(ECDSASignatureWithHint, usize), CodecError>,
)
    requires
        read_outcome(r, |x: ECDSASignatureWithHint| x.tokens(), v.tokens(), 0, 29,
            |t: Seq<u128>| ECDSASignatureWithHint::fits(t)),
    ensures
        r == Ok::<(ECDSASignatureWithHint, usize), CodecError>((v, 29usize)),
{
    let t = v.tokens();
    lemma_signature_tokens(v.signature, v.signature);
    lemma_g1_tokens(v.msm_hint.result, v.msm_hint.result);
    lemma_u384_tokens(v.msm_derive_hint.y, v.msm_derive_hint.y);
    assert(t.subrange(0, 17) =~= v.signature.tokens());
    assert(t.subrange(17, 25) =~= v.msm_hint.tokens());
    assert(t.subrange(25, 29) =~= v.msm_derive_hint.tokens());
    assert(t.subrange(0, 29) =~= t);
    let (w, next) = r.unwrap();
    let u = w.tokens();
    lemma_signature_tokens(w.signature, v.signature);
    lemma_g1_tokens(w.msm_hint.result, v.msm_hint.result);
    lemma_u384_tokens(w.msm_derive_hint.y, v.msm_derive_hint.y);
    assert(u.subrange(0, 17) =~= w.signature.tokens());
    assert(u.subrange(17, 25) =~= w.msm_hint.tokens());
    assert(u.subrange(25, 29) =~= w.msm_derive_hint.tokens());
}

} // verus!
