//! Small trusted bridges to text routines of std and of the `natord`
//! crate. Everything else in the crate works on the names and contracts
//! declared here.

use vstd::prelude::*;

verus! {

/// Relies on str's `PartialEq`: two string slices are equal exactly when
/// they consist of the same characters.
pub assume_specification[ <str as PartialEq>::eq ](a: &str, b: &str) -> (r: bool)
    ensures
        r == (a@ == b@),
;

/// Relies on String::push: appends the given character at the end.
#[verifier::external_body]
pub(crate) fn push_char(s: &mut String, c: char)
    ensures
        final(s)@ == old(s)@.push(c),
{
    s.push(c);
}

/// Whether a character counts as alphanumeric under Unicode; the name for
/// what `char::is_alphanumeric` returns.
pub uninterp spec fn alphanumeric(c: char) -> bool;

/// Relies on char::is_alphanumeric: membership of the character in one of
/// the Unicode letter or number categories; depends on the character alone.
#[verifier::external_body]
pub(crate) fn char_is_alphanumeric(c: char) -> (r: bool)
    ensures
        r == alphanumeric(c),
{
    c.is_alphanumeric()
}

/// The Unicode lowercase mapping of a string; the name for what
/// `str::to_lowercase` returns.
pub uninterp spec fn lower_of(s: Seq<char>) -> Seq<char>;

/// Relies on str::to_lowercase: the lowercase equivalent of the string,
/// as defined by the Unicode lowercase property; depends on the
/// characters alone. An empty string stays empty.
#[verifier::external_body]
pub(crate) fn to_lowercase(s: &str) -> (r: String)
    ensures
        r@ == lower_of(s@),
        s@.len() == 0 ==> r@.len() == 0,
{
    s.to_lowercase()
}

/// Case-insensitive natural-order comparison of two strings; the name for
/// what `natord::compare_ignore_case` returns, with less, equal and
/// greater encoded as -1, 0 and 1.
pub uninterp spec fn natural_cmp(a: Seq<char>, b: Seq<char>) -> int;

/// Relies on natord::compare_ignore_case: natural ordering (digit runs
/// compared as numbers) over the lowercased strings; depends on the two
/// strings alone.
#[verifier::external_body]
pub(crate) fn natord_compare_ignore_case(a: &str, b: &str) -> (r: i8)
    ensures
        r as int == natural_cmp(a@, b@),
        -1 <= r <= 1,
{
    match natord::compare_ignore_case(a, b) {
        core::cmp::Ordering::Less => -1,
        core::cmp::Ordering::Equal => 0,
        core::cmp::Ordering::Greater => 1,
    }
}

} // verus!
