//! Amounts of tokens: numbers of up to 256 bits.

use vstd::prelude::*;

verus! {

/// Two to the power of 64: the weight of the second limb of an amount.
pub open spec fn weight_1() -> nat {
    0x1_0000_0000_0000_0000nat
}

/// Two to the power of 128: the weight of the third limb of an amount.
pub open spec fn weight_2() -> nat {
    0x1_0000_0000_0000_0000_0000_0000_0000_0000nat
}

/// Two to the power of 192: the weight of the fourth limb of an amount.
pub open spec fn weight_3() -> nat {
    0x1_0000_0000_0000_0000_0000_0000_0000_0000_0000_0000_0000_0000nat
}

/// Two to the power of 256: the first number that is no amount.
pub open spec fn amount_limit() -> nat {
    0x1_0000_0000_0000_0000_0000_0000_0000_0000_0000_0000_0000_0000_0000_0000_0000_0000nat
}

/// The number that four limbs of 64 bits stand for, least limb first.
pub open spec fn limbs_value(limbs: [u64; 4]) -> nat {
    limbs[0] as nat + limbs[1] as nat * weight_1() + limbs[2] as nat * weight_2() + limbs[3] as nat
        * weight_3()
}

/// The number that a text of decimal digits stands for; the empty text
/// stands for zero. A text with any other character stands for none.
pub open spec fn decimal_value(text: Seq<char>) -> Option<nat>
    decreases text.len(),
{
    if text.len() == 0 {
        Some(0nat)
    } else {
        let last = text.last();
        match decimal_value(text.drop_last()) {
            Some(rest) => if '0' <= last && last <= '9' {
                Some((rest * 10 + (last as nat - '0' as nat)) as nat)
            } else {
                None
            },
            None => None,
        }
    }
}

/// Calls `primitive_types::U256::checked_add`: the sum, where it is below
/// two to the power of 256.
#[verifier::external_body]
fn u256_checked_add(a: [u64; 4], b: [u64; 4]) -> (r: Option<[u64; 4]>)
    ensures
        r is Some <==> limbs_value(a) + limbs_value(b) < amount_limit(),
        r matches Some(sum) ==> limbs_value(sum) == limbs_value(a) + limbs_value(b),
{
    primitive_types::U256(a).checked_add(primitive_types::U256(b)).map(|sum| sum.0)
}

/// Calls `primitive_types::U256::checked_sub`: the difference, where the
/// first number is not below the second.
#[verifier::external_body]
fn u256_checked_sub(a: [u64; 4], b: [u64; 4]) -> (r: Option<[u64; 4]>)
    ensures
        r is Some <==> limbs_value(a) >= limbs_value(b),
        r matches Some(difference) ==> limbs_value(difference) == limbs_value(a) - limbs_value(b),
{
    primitive_types::U256(a).checked_sub(primitive_types::U256(b)).map(|difference| difference.0)
}

/// Calls `primitive_types::U256::from_dec_str`: the number that a text of
/// decimal digits stands for, where it is below two to the power of 256.
#[verifier::external_body]
fn u256_from_dec_str(text: &str) -> (r: Option<[u64; 4]>)
    ensures
        r is Some <==> (decimal_value(text@) matches Some(n) && n < amount_limit()),
        r matches Some(limbs) ==> Some(limbs_value(limbs)) == decimal_value(text@),
{
    primitive_types::U256::from_dec_str(text).ok().map(|n| n.0)
}

/// Why a token transfer was refused.
#[derive(Clone, Copy, Debug, PartialEq, Eq, Structural)]
pub enum TokenTransferError {
    /// The text is no amount: it is not made of decimal digits, or the
    /// number is too large.
    InvalidAmount,
}

/// An amount of tokens, as four limbs of 64 bits, least limb first.
#[derive(Clone, Copy, Debug, PartialEq, Eq)]
pub struct Amount {
    pub limbs: [u64; 4],
}

impl View for Amount {
    type V = nat;

    /// The amount as a number.
    open spec fn view(&self) -> nat {
        limbs_value(self.limbs)
    }
}

impl Amount {
    /// The sum of two amounts, where it is an amount.
    pub fn checked_add(self, rhs: Amount) -> (r: Option<Amount>)
        ensures
            r is Some <==> self@ + rhs@ < amount_limit(),
            r matches Some(sum) ==> sum@ == self@ + rhs@,
    {
        match u256_checked_add(self.limbs, rhs.limbs) {
            Some(limbs) => Some(Amount { limbs }),
            None => None,
        }
    }

    /// The difference of two amounts, where the first is not the smaller.
    pub fn checked_sub(self, rhs: Amount) -> (r: Option<Amount>)
        ensures
            r is Some <==> self@ >= rhs@,
            r matches Some(difference) ==> difference@ == self@ - rhs@,
    {
        match u256_checked_sub(self.limbs, rhs.limbs) {
            Some(limbs) => Some(Amount { limbs }),
            None => None,
        }
    }

    /// The amount that a number of 64 bits stands for.
    pub fn from_u64(v: u64) -> (r: Amount)
        ensures
            r@ == v,
    {
        Amount { limbs: [v, 0, 0, 0] }
    }

    /// The amount of four limbs, least limb first.
    pub fn from_limbs(limbs: [u64; 4]) -> (r: Amount)
        ensures
            r.limbs == limbs,
            r@ == limbs_value(limbs),
    {
        Amount { limbs }
    }

    /// Reads an amount from a text of decimal digits.
    pub fn parse(s: &str) -> (r: Result<Amount, TokenTransferError>)
        ensures
            r is Ok <==> (decimal_value(s@) matches Some(n) && n < amount_limit()),
            r matches Ok(amount) ==> Some(amount@) == decimal_value(s@),
            r is Err ==> r == Err::<Amount, TokenTransferError>(TokenTransferError::InvalidAmount),
    {
        match u256_from_dec_str(s) {
            Some(limbs) => Ok(Amount { limbs }),
            None => Err(TokenTransferError::InvalidAmount),
        }
    }
}

impl core::str::FromStr for Amount {
    type Err = TokenTransferError;

    /// Reads an amount from a text of decimal digits, as `Amount::parse`
    /// does.
    fn from_str(s: &str) -> (r: Result<Amount, TokenTransferError>)
        ensures
            r is Ok <==> (decimal_value(s@) matches Some(n) && n < amount_limit()),
            r matches Ok(amount) ==> Some(amount@) == decimal_value(s@),
            r is Err ==> r == Err::<Amount, TokenTransferError>(TokenTransferError::InvalidAmount),
    {
        Amount::parse(s)
    }
}

} // verus!
