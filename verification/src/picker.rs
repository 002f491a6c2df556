//! Choosing the secret: one line picked at random from the candidate
//! lines, folded to lowercase. Reading the candidate file is the caller's
//! business; this module starts from the lines as plain values.

use vstd::prelude::*;

verus! {

/// Why no secret could be picked.
#[derive(Clone, Copy, PartialEq, Eq, Structural, Debug)]
pub enum PickError {
    /// The candidate source held no line at all.
    EmptySource,
}

/// The lowercase folding of a character sequence, as `str::to_lowercase`
/// computes it; a function of the characters alone.
pub uninterp spec fn lower_str(s: Seq<char>) -> Seq<char>;

/// Relies on `str::to_lowercase`: it returns the lowercase mapping of the
/// string, determined by its characters alone.
#[verifier::external_body]
fn lowercase_str(s: &str) -> (r: String)
    ensures
        r@ == lower_str(s@),
{
    s.to_lowercase()
}

/// Relies on `rand::random_range`: it returns a value drawn from the
/// half-open range handed to it, and panics only on an empty range.
#[verifier::external_body]
fn random_index(n: usize) -> (r: usize)
    requires
        n > 0,
    ensures
        r < n,
{
    rand::random_range(0..n)
}

/// Picks one of the candidate lines at random and folds it to lowercase.
/// Fails exactly when there is no candidate at all.
pub fn pick_secret(lines: &Vec<String>) -> (r: Result<String, PickError>)
    ensures
        r is Ok <==> lines@.len() > 0,
        r is Err ==> r->Err_0 == PickError::EmptySource,
        r matches Ok(s) ==> exists|i: int|
            0 <= i < lines@.len() && s@ == lower_str(#[trigger] lines@[i]@),
{
    if lines.len() == 0 {
        Err(PickError::EmptySource)
    } else {
        let i = random_index(lines.len());
        let s = lowercase_str(lines[i].as_str());
        proof {
            assert(s@ == lower_str(lines@[i as int]@));
        }
        Ok(s)
    }
}

} // verus!
