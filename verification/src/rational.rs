//! Rational tag values, a numerator over a denominator, and how they are
//! written out.

use vstd::prelude::*;
use crate::text::{decimal, push_decimal, push_signed_decimal, signed_decimal};

verus! {

/// An unsigned rational tag value.
#[derive(Clone, Copy, Debug, PartialEq, Eq, Structural)]
pub struct Rational {
    pub numerator: u32,
    pub denominator: u32,
}

/// A signed rational tag value.
#[derive(Clone, Copy, Debug, PartialEq, Eq, Structural)]
pub struct SignedRational {
    pub numerator: i32,
    pub denominator: i32,
}

/// The fraction `numerator/denominator` in decimal digits.
pub open spec fn unsigned_fraction(numerator: u32, denominator: u32) -> Seq<char> {
    decimal(numerator as nat) + seq!['/'] + decimal(denominator as nat)
}

/// The fraction `numerator/denominator` in decimal digits, each part with its
/// sign.
pub open spec fn signed_fraction(numerator: i32, denominator: i32) -> Seq<char> {
    signed_decimal(numerator as int) + seq!['/'] + signed_decimal(denominator as int)
}

/// How an exposure compensation reads: `0` where the numerator is zero, the
/// signed fraction otherwise.
pub open spec fn exposure_bias_text(numerator: i32, denominator: i32) -> Seq<char> {
    if numerator == 0 {
        seq!['0']
    } else {
        signed_fraction(numerator, denominator)
    }
}

/// Writes an unsigned rational as `numerator/denominator`. The denominator is
/// written as it is, zero included.
pub fn render_unsigned_rational(numerator: u32, denominator: u32) -> (text: String)
    ensures
        text@ == unsigned_fraction(numerator, denominator),
{
    let mut text = String::new();
    push_decimal(&mut text, numerator as u64);
    proof {
        reveal_strlit("/");
    }
    text.append("/");
    push_decimal(&mut text, denominator as u64);
    assert(text@ =~= unsigned_fraction(numerator, denominator));
    text
}

/// Writes an exposure compensation: `0` where the numerator is zero, else
/// `numerator/denominator` with signs.
pub fn render_exposure_bias(numerator: i32, denominator: i32) -> (text: String)
    ensures
        text@ == exposure_bias_text(numerator, denominator),
{
    let mut text = String::new();
    if numerator == 0 {
        proof {
            reveal_strlit("0");
        }
        text.append("0");
        assert(text@ =~= seq!['0']);
    } else {
        push_signed_decimal(&mut text, numerator);
        proof {
            reveal_strlit("/");
        }
        text.append("/");
        push_signed_decimal(&mut text, denominator);
        assert(text@ =~= signed_fraction(numerator, denominator));
    }
    text
}

} // verus!
