use vstd::prelude::*;

verus! {

/// The base of one 64-bit limb.
pub open spec fn limb_base() -> nat {
    0x1_0000_0000_0000_0000
}

/// The value of a sequence of 64-bit limbs, least significant first.
pub open spec fn limbs_value(s: Seq<u64>) -> nat
    decreases s.len(),
{
    if s.len() == 0 {
        0
    } else {
        (s[0] + limb_base() * limbs_value(s.subrange(1, s.len() as int))) as nat
    }
}

/// The character of one decimal digit.
pub open spec fn digit_char(d: nat) -> char {
    if d == 0 {
        '0'
    } else if d == 1 {
        '1'
    } else if d == 2 {
        '2'
    } else if d == 3 {
        '3'
    } else if d == 4 {
        '4'
    } else if d == 5 {
        '5'
    } else if d == 6 {
        '6'
    } else if d == 7 {
        '7'
    } else if d == 8 {
        '8'
    } else {
        '9'
    }
}

/// Base-ten text of `n`: most significant digit first, no leading zeros,
/// and "0" for zero.
pub open spec fn decimal_text(n: nat) -> Seq<char>
    decreases n,
{
    if n < 10 {
        seq![digit_char(n)]
    } else {
        decimal_text(n / 10).push(digit_char(n % 10))
    }
}

/// An arbitrary-precision unsigned integer, held as 64-bit limbs with the
/// least significant first. Zero limbs at the top are allowed and add nothing.
#[derive(Clone, Debug)]
pub struct BigUnsigned {
    pub limbs: Vec<u64>,
}

impl View for BigUnsigned {
    type V = nat;

    open spec fn view(&self) -> nat {
        limbs_value(self.limbs@)
    }
}

/// Relies on num_bigint: `BigUint::from_bytes_le` reads the limbs' bytes as
/// one little-endian number, and its `Display` writes that number in base ten.
#[verifier::external_body]
fn decimal_of_limbs(limbs: &Vec<u64>) -> (r: String)
    ensures
        r@ == decimal_text(limbs_value(limbs@)),
{
    let bytes: Vec<u8> = limbs.iter().flat_map(|l| l.to_le_bytes()).collect();
    num_bigint::BigUint::from_bytes_le(&bytes).to_string()
}

impl BigUnsigned {
    /// The number held by the given limbs, least significant first.
    pub fn from_limbs(limbs: Vec<u64>) -> (r: BigUnsigned)
        ensures
            r@ == limbs_value(limbs@),
    {
        BigUnsigned { limbs }
    }

    /// The number `n`.
    pub fn from_u64(n: u64) -> (r: BigUnsigned)
        ensures
            r@ == n,
    {
        let limbs = vec![n];
        proof {
            assert(limbs@.subrange(1, 1) =~= Seq::<u64>::empty());
            assert(limbs_value(Seq::<u64>::empty()) == 0);
        }
        BigUnsigned { limbs }
    }

    /// Base-ten text of the number.
    pub fn to_decimal(&self) -> (r: String)
        ensures
            r@ == decimal_text(self@),
    {
        decimal_of_limbs(&self.limbs)
    }
}

} // verus!
