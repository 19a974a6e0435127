//! ISO 4217 currency codes, recognised through `iso_currency`.
use vstd::prelude::*;

use iso_currency::Currency;

verus! {

/// A three-letter ISO 4217 currency code, such as `USD`.
#[derive(Clone, Debug)]
pub struct CurrencyCode {
    pub code: String,
}

impl View for CurrencyCode {
    type V = Seq<char>;

    open spec fn view(&self) -> Seq<char> {
        self.code@
    }
}

impl CurrencyCode {
    /// The code as text.
    pub fn as_str(&self) -> (r: &str)
        ensures
            r@ == self@,
    {
        self.code.as_str()
    }
}

/// Whether `Currency::from_code` knows a text as an ISO 4217 code.
pub uninterp spec fn is_iso_currency_code(s: Seq<char>) -> bool;

/// Relies on `Currency::from_code` (iso_currency), which matches the text
/// exactly against the codes of its table.
#[verifier::external_body]
pub(crate) fn known_currency_code(s: &str) -> (r: bool)
    ensures
        r == is_iso_currency_code(s@),
{
    Currency::from_code(s).is_some()
}

} // verus!
