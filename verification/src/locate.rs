//! Finding the file of a band among file names.
//!
//! A band is told by its identifier, which is read as a regular expression
//! and searched for in each file name. The first name in which it is found
//! is the file of the band.

use vstd::prelude::*;
use crate::registry::IndexError;

verus! {

/// What a search for `pattern` in `text` finds: `None` if `pattern` is no
/// regular expression that the `regex` crate compiles, and else whether the
/// expression matches anywhere in `text`.
pub uninterp spec fn pattern_search(pattern: Seq<char>, text: Seq<char>) -> Option<bool>;

/// Compiles `pattern` with `regex::Regex::new` and searches `text` with
/// `Regex::is_match`. Trusted: the result is a function of the two strings
/// alone, which [`pattern_search`] names; a pattern that does not compile
/// gives `None`.
#[verifier::external_body]
fn search(pattern: &str, text: &str) -> (found: Option<bool>)
    ensures
        found == pattern_search(pattern@, text@),
{
    match regex::Regex::new(pattern) {
        Ok(expression) => Some(expression.is_match(text)),
        Err(_) => None,
    }
}

/// Whether the search found the pattern.
pub open spec fn is_hit(found: Option<bool>) -> bool {
    found == Some(true)
}

/// The position of the first hit among the results of the searches, one
/// result per file name, or `MissingBand` if there is none. A search whose
/// pattern did not compile is no hit.
pub fn first_hit(results: &Vec<Option<bool>>) -> (found: Result<usize, IndexError>)
    ensures
        match found {
            Ok(at) => {
                &&& at < results.len()
                &&& is_hit(results[at as int])
                &&& forall|j: int| 0 <= j < at ==> !is_hit(#[trigger] results[j])
            },
            Err(e) => {
                &&& e == IndexError::MissingBand
                &&& forall|j: int| 0 <= j < results.len() ==> !is_hit(#[trigger] results[j])
            },
        },
{
    let mut i: usize = 0;
    while i < results.len()
        invariant
            i <= results.len(),
            forall|j: int| 0 <= j < i ==> !is_hit(#[trigger] results[j]),
        decreases results.len() - i,
    {
        match results[i] {
            Some(true) => {
                return Ok(i);
            },
            _ => {},
        }
        i += 1;
    }
    Err(IndexError::MissingBand)
}

/// The position of the first of `names` in which the identifier `band` is
/// found, or `MissingBand` if it is found in none.
pub fn locate_band(names: &Vec<String>, band: &str) -> (found: Result<usize, IndexError>)
    ensures
        match found {
            Ok(at) => {
                &&& at < names.len()
                &&& is_hit(pattern_search(band@, names[at as int]@))
                &&& forall|j: int|
                    0 <= j < at ==> !is_hit(#[trigger] pattern_search(band@, names[j]@))
            },
            Err(e) => {
                &&& e == IndexError::MissingBand
                &&& forall|j: int|
                    0 <= j < names.len() ==> !is_hit(#[trigger] pattern_search(band@, names[j]@))
            },
        },
{
    let mut results: Vec<Option<bool>> = Vec::new();
    let mut i: usize = 0;
    while i < names.len()
        invariant
            i <= names.len(),
            results@.len() == i,
            forall|j: int|
                0 <= j < i ==> results@[j] == pattern_search(band@, #[trigger] names[j]@),
        decreases names.len() - i,
    {
        results.push(search(band, names[i].as_str()));
        i += 1;
    }
    first_hit(&results)
}

} // verus!
