//! Exact decimal amounts as they appear on the wire.
//!
//! A [`Dec`] is the pair (mantissa, scale) meaning `mantissa / 10^scale`, which is
//! how `rust_decimal::Decimal` represents a number. Parsing is done by
//! `rust_decimal`; this module only carries the result as plain integers.

use vstd::prelude::*;

verus! {

/// The largest scale `rust_decimal` represents.
pub const MAX_SCALE: u32 = 28;

/// A decimal number `mantissa * 10^-scale`, as produced by `rust_decimal`.
#[derive(Debug, Clone, Copy, PartialEq, Eq, Structural)]
pub struct Dec {
    pub mantissa: i128,
    pub scale: u32,
}

/// What `<rust_decimal::Decimal as FromStr>::from_str` yields for a text, as
/// (mantissa, scale); `None` where it reports an error.
pub uninterp spec fn decimal_from_text(text: Seq<char>) -> Option<(i128, u32)>;

/// The largest magnitude of a `rust_decimal` mantissa, `2^96 - 1`.
pub open spec fn max_mantissa() -> int {
    0xffff_ffff_ffff_ffff_ffff_ffff
}

/// The decimal that a parse result stands for.
pub open spec fn dec_of(parts: Option<(i128, u32)>) -> Option<Dec> {
    match parts {
        Some((m, s)) => Some(Dec { mantissa: m, scale: s }),
        None => None,
    }
}

/// The decimal `text` denotes, as `rust_decimal` reads it.
pub open spec fn parsed_dec(text: Seq<char>) -> Option<Dec> {
    dec_of(decimal_from_text(text))
}

/// Calls `<rust_decimal::Decimal as FromStr>::from_str` and returns the
/// mantissa and scale of the result. The value is left to the name
/// `decimal_from_text`; stated besides are the bounds of every `Decimal`:
/// the scale is at most 28 and the mantissa fits in 96 bits.
#[verifier::external_body]
fn rust_decimal_from_str(text: &str) -> (r: Option<(i128, u32)>)
    ensures
        r == decimal_from_text(text@),
        r matches Some((m, s)) ==> s <= MAX_SCALE && -max_mantissa() <= m <= max_mantissa(),
{
    match <rust_decimal::Decimal as core::str::FromStr>::from_str(text) {
        Ok(d) => Some((d.mantissa(), d.scale())),
        Err(_) => None,
    }
}

impl Dec {
    /// Zero, with scale 0.
    pub fn zero() -> (d: Dec)
        ensures
            d == (Dec { mantissa: 0, scale: 0 }),
    {
        Dec { mantissa: 0, scale: 0 }
    }

    /// Parses a decimal text the way `rust_decimal` does.
    pub fn parse(text: &str) -> (r: Option<Dec>)
        ensures
            r == parsed_dec(text@),
            r matches Some(d) ==> d.scale <= MAX_SCALE,
    {
        match rust_decimal_from_str(text) {
            Some((m, s)) => Some(Dec { mantissa: m, scale: s }),
            None => None,
        }
    }
}

} // verus!
