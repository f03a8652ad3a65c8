//! Trusted views of the standard library's text operations.
//!
//! Tag normalization and command-line splitting follow the standard
//! library's notion of Unicode whitespace and lowercasing. Their full
//! behaviour is far too large to restate, and each is a pure function of its
//! input, so each result is given a name (an uninterpreted spec function)
//! that the rest of the library reasons with.

use vstd::prelude::*;

verus! {

/// The text with leading and trailing whitespace removed, as
/// `str::trim` computes it.
pub uninterp spec fn trimmed_of(s: Seq<char>) -> Seq<char>;

/// The lowercase equivalent of the text, as `str::to_lowercase`
/// computes it.
pub uninterp spec fn lower_of(s: Seq<char>) -> Seq<char>;

/// The whitespace-separated words of the text, in order, as
/// `str::split_whitespace` yields them.
pub uninterp spec fn words_of(s: Seq<char>) -> Seq<Seq<char>>;

/// Relies on `str::trim`: removes leading and trailing whitespace; the
/// result depends on the characters alone.
#[verifier::external_body]
pub(crate) fn trim_text(s: &str) -> (r: &str)
    ensures
        r@ == trimmed_of(s@),
{
    s.trim()
}

/// Relies on `str::to_lowercase`: the lowercase equivalent of the text; the
/// result depends on the characters alone.
#[verifier::external_body]
pub(crate) fn lowercase_text(s: &str) -> (r: String)
    ensures
        r@ == lower_of(s@),
{
    s.to_lowercase()
}

/// Relies on `str::split_whitespace`: the whitespace-separated words of the
/// text, in order; the result depends on the characters alone.
#[verifier::external_body]
pub(crate) fn split_words(s: &str) -> (r: Vec<String>)
    ensures
        r.deep_view() == words_of(s@),
{
    s.split_whitespace().map(|w| w.to_owned()).collect()
}

/// Relies on `str`'s `PartialEq`: two string slices are equal exactly when
/// their characters are equal.
#[verifier::external_body]
pub(crate) fn str_eq(a: &str, b: &str) -> (r: bool)
    ensures
        r == (a@ == b@),
{
    a == b
}

} // verus!
