//! Text operations of the standard library that the front-end logic relies
//! on and that have no verified contract of their own.
//!
//! Like the items of [`crate::primitives`], these are trusted: each wraps
//! one method of `str` or `String` and records what its documentation says.

use vstd::prelude::*;

verus! {

/// What `str::trim` leaves of a text: the text without its leading and
/// trailing whitespace, where whitespace is what Unicode's `White_Space`
/// property says.
pub uninterp spec fn trimmed(text: Seq<char>) -> Seq<char>;

/// A text is blank when nothing is left of it after trimming.
pub open spec fn is_blank(text: Seq<char>) -> bool {
    trimmed(text).len() == 0
}

/// Calls `str::trim`.  The contract gives the result its name.
#[verifier::external_body]
pub(crate) fn trim(text: &str) -> (inner: &str)
    ensures
        inner@ == trimmed(text@),
{
    text.trim()
}

/// Calls `String::push`, which appends the character to the end of the
/// text.
#[verifier::external_body]
pub(crate) fn push_char(text: &mut String, c: char)
    ensures
        final(text)@ == old(text)@.push(c),
{
    text.push(c)
}

/// Calls `String::pop`, which removes the last character and returns it,
/// or returns `None` and changes nothing where the text is empty.
#[verifier::external_body]
pub(crate) fn pop_char(text: &mut String) -> (removed: Option<char>)
    ensures
        old(text)@.len() == 0 ==> removed is None && final(text)@ == old(text)@,
        old(text)@.len() > 0 ==> removed == Some(old(text)@.last()) && final(text)@ == old(
            text,
        )@.drop_last(),
{
    text.pop()
}

} // verus!
