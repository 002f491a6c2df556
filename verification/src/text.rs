//! Character and string helpers: case folding, the alphabetic test, and
//! small verified utilities over the character sequence of a string.

use vstd::prelude::*;
use vstd::string::StrSliceExecFns;

verus! {

/// The first character that `char::to_lowercase` yields for `c`; the
/// mapping depends on the character alone.
pub uninterp spec fn lower_char(c: char) -> char;

/// Whether `char::is_alphabetic` holds of `c`; a fixed property of the
/// character alone.
pub uninterp spec fn is_alphabetic_char(c: char) -> bool;

/// Relies on `char::to_lowercase`: it yields the lowercase mapping of the
/// character, one or more characters, so the first one is always there.
#[verifier::external_body]
pub(crate) fn lowercase_char(c: char) -> (r: char)
    ensures
        r == lower_char(c),
{
    c.to_lowercase().next().unwrap()
}

/// Relies on `char::is_alphabetic`: whether the character is a letter.
#[verifier::external_body]
pub(crate) fn char_is_alphabetic(c: char) -> (r: bool)
    ensures
        r == is_alphabetic_char(c),
{
    c.is_alphabetic()
}

/// Relies on `String::push`: it appends the character at the end of the
/// string.
#[verifier::external_body]
pub(crate) fn push_char(s: &mut String, c: char)
    ensures
        final(s)@ == old(s)@.push(c),
{
    s.push(c)
}

/// Whether the character sequence of `s` holds `c`.
pub(crate) fn string_contains_char(s: &str, c: char) -> (r: bool)
    ensures
        r == s@.contains(c),
{
    let n: usize = s.unicode_len();
    let mut i: usize = 0;
    while i < n
        invariant
            n == s@.len(),
            i <= n,
            forall|j: int| 0 <= j < i ==> s@[j] != c,
        decreases n - i,
    {
        if s.get_char(i) == c {
            return true;
        }
        i = i + 1;
    }
    false
}

} // verus!
