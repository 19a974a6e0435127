//! Exact decimal numbers as a mantissa and a power-of-ten scale, with the
//! arithmetic carried out by `rust_decimal`.
use vstd::prelude::*;

use rust_decimal::Decimal;

use crate::text::FromText;

verus! {

/// Largest magnitude of a mantissa: 2^96 - 1.
pub const MAX_MANTISSA: i128 = 79228162514264337593543950335;

/// Largest number of digits after the decimal point.
pub const MAX_SCALE: u32 = 28;

/// The number `mantissa / 10^scale`.
#[derive(Clone, Copy, Debug)]
pub struct Dec {
    pub mantissa: i128,
    pub scale: u32,
}

impl Dec {
    /// The mantissa fits in 96 bits and the scale is at most 28.
    pub open spec fn wf(self) -> bool {
        -MAX_MANTISSA <= self.mantissa <= MAX_MANTISSA && self.scale <= MAX_SCALE
    }

    /// `mantissa / 10^scale`, when that is a valid decimal.
    pub fn new(mantissa: i128, scale: u32) -> (r: Option<Dec>)
        ensures
            r matches Some(d) ==> d.wf() && d.mantissa == mantissa && d.scale == scale,
            r is Some <==> (-MAX_MANTISSA <= mantissa <= MAX_MANTISSA && scale <= MAX_SCALE),
    {
        if -MAX_MANTISSA <= mantissa && mantissa <= MAX_MANTISSA && scale <= MAX_SCALE {
            Some(Dec { mantissa, scale })
        } else {
            None
        }
    }

    /// The whole number `n`.
    pub fn from_int(n: i64) -> (r: Dec)
        ensures
            r.wf(),
            r.mantissa == n,
            r.scale == 0,
    {
        Dec { mantissa: n as i128, scale: 0 }
    }

    /// Formats the number with all `scale` digits after the point; reading
    /// the text back gives the same mantissa and scale.
    pub fn to_text(&self) -> (r: String)
        requires
            self.wf(),
        ensures
            r@ == decimal_text(*self),
            decimal_from_text(r@) == Some(*self),
    {
        display_decimal(self)
    }
}

/// What `Decimal::from_str` makes of a text, when it accepts it.
pub uninterp spec fn decimal_from_text(s: Seq<char>) -> Option<Dec>;

/// What `Decimal`'s `Display` writes for a number.
pub uninterp spec fn decimal_text(d: Dec) -> Seq<char>;

/// What `Decimal::checked_add` gives for two numbers.
pub uninterp spec fn decimal_sum(a: Dec, b: Dec) -> Option<Dec>;

/// What `Decimal::checked_mul` gives for two numbers.
pub uninterp spec fn decimal_product(a: Dec, b: Dec) -> Option<Dec>;

/// What `Decimal::checked_div` gives for two numbers.
pub uninterp spec fn decimal_quotient(a: Dec, b: Dec) -> Option<Dec>;

/// Relies on `Decimal::from_str` (rust_decimal): parses a decimal number;
/// a parsed `Decimal` has a 96-bit mantissa and a scale of at most 28.
#[verifier::external_body]
pub(crate) fn parse_decimal_text(s: &str) -> (r: Option<Dec>)
    ensures
        r == decimal_from_text(s@),
        r matches Some(d) ==> d.wf(),
{
    match s.parse::<Decimal>() {
        Ok(d) => Some(Dec { mantissa: d.mantissa(), scale: d.scale() }),
        Err(_) => None,
    }
}

/// Relies on `Decimal`'s `Display` (rust_decimal), which writes the mantissa
/// with `scale` digits after the point, so that `Decimal::from_str` reads the same
/// mantissa and scale back.  `from_i128_with_scale` cannot panic on a
/// well-formed value.
#[verifier::external_body]
fn display_decimal(d: &Dec) -> (r: String)
    requires
        d.wf(),
    ensures
        r@ == decimal_text(*d),
        decimal_from_text(r@) == Some(*d),
{
    Decimal::from_i128_with_scale(d.mantissa, d.scale).to_string()
}

/// Relies on `Decimal::checked_add` (rust_decimal): the sum, or `None` on
/// overflow; a result has a 96-bit mantissa and a scale of at most 28.
#[verifier::external_body]
pub(crate) fn checked_sum(a: Dec, b: Dec) -> (r: Option<Dec>)
    requires
        a.wf(),
        b.wf(),
    ensures
        r == decimal_sum(a, b),
        r matches Some(d) ==> d.wf(),
{
    let x = Decimal::from_i128_with_scale(a.mantissa, a.scale);
    let y = Decimal::from_i128_with_scale(b.mantissa, b.scale);
    match x.checked_add(y) {
        Some(d) => Some(Dec { mantissa: d.mantissa(), scale: d.scale() }),
        None => None,
    }
}

/// Relies on `Decimal::checked_mul` (rust_decimal): the product, or `None`
/// on overflow; a result has a 96-bit mantissa and a scale of at most 28.
#[verifier::external_body]
pub(crate) fn checked_product(a: Dec, b: Dec) -> (r: Option<Dec>)
    requires
        a.wf(),
        b.wf(),
    ensures
        r == decimal_product(a, b),
        r matches Some(d) ==> d.wf(),
{
    let x = Decimal::from_i128_with_scale(a.mantissa, a.scale);
    let y = Decimal::from_i128_with_scale(b.mantissa, b.scale);
    match x.checked_mul(y) {
        Some(d) => Some(Dec { mantissa: d.mantissa(), scale: d.scale() }),
        None => None,
    }
}

/// Relies on `Decimal::checked_div` (rust_decimal): the quotient, or `None`
/// on overflow or division by zero; a result has a 96-bit mantissa and a
/// scale of at most 28.
#[verifier::external_body]
pub(crate) fn checked_quotient(a: Dec, b: Dec) -> (r: Option<Dec>)
    requires
        a.wf(),
        b.wf(),
    ensures
        r == decimal_quotient(a, b),
        r matches Some(d) ==> d.wf(),
{
    let x = Decimal::from_i128_with_scale(a.mantissa, a.scale);
    let y = Decimal::from_i128_with_scale(b.mantissa, b.scale);
    match x.checked_div(y) {
        Some(d) => Some(Dec { mantissa: d.mantissa(), scale: d.scale() }),
        None => None,
    }
}

impl FromText for Dec {
    open spec fn from_text_spec(s: Seq<char>) -> Option<Dec> {
        decimal_from_text(s)
    }

    open spec fn valid(&self) -> bool {
        self.wf()
    }

    fn from_text(s: &str) -> (r: Option<Dec>) {
        parse_decimal_text(s)
    }
}

} // verus!
