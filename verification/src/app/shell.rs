//! Splitting a typed command line into words, as a Bourne shell does.

use crate::text::views;
use vstd::prelude::*;

verus! {

/// The words `shellwords::split` finds in `line`, or none when its quotes do
/// not match.
pub uninterp spec fn shell_words(line: Seq<char>) -> Option<Seq<Seq<char>>>;

/// Splits `line` into words with `shellwords::split`: quotes group words and
/// backslashes escape. Nothing is stated of the words beyond their name; `None`
/// when the quotes do not match.
#[verifier::external_body]
pub fn split_words(line: &str) -> (res: Option<Vec<String>>)
    ensures
        res matches Some(w) ==> shell_words(line@) == Some(views(w@)),
        res is None ==> shell_words(line@) is None,
{
    match shellwords::split(line) {
        Ok(words) => Some(words),
        Err(_) => None,
    }
}

} // verus!
