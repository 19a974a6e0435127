//! Reading typed values out of the text that a user typed.
use vstd::prelude::*;

verus! {

/// What `str::trim` leaves of a text: the text without its leading and
/// trailing whitespace.
pub uninterp spec fn trimmed(s: Seq<char>) -> Seq<char>;

/// Relies on `str::trim`: removes leading and trailing whitespace.
#[verifier::external_body]
pub(crate) fn trim_text(s: &str) -> (r: &str)
    ensures
        r@ == trimmed(s@),
{
    s.trim()
}

/// A type whose values can be read from a text.
pub trait FromText: Sized {
    /// The value that a text denotes, if any.
    spec fn from_text_spec(s: Seq<char>) -> Option<Self>;

    /// What holds of every value that is read from a text.
    spec fn valid(&self) -> bool;

    /// Reads the value that `s` denotes.
    fn from_text(s: &str) -> (r: Option<Self>)
        ensures
            r == Self::from_text_spec(s@),
            r matches Some(v) ==> v.valid(),
    ;
}

/// Reads a value from `input` with surrounding whitespace removed.
pub fn parse_input_into_type<T: FromText>(input: &str) -> (r: Option<T>)
    ensures
        r == T::from_text_spec(trimmed(input@)),
        r matches Some(v) ==> v.valid(),
{
    let t = trim_text(input);
    T::from_text(t)
}

} // verus!
