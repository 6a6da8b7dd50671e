//! Regex sets of the `regex` crate, as far as the matcher uses them.
//!
//! Nothing in this file is proved: each item states what `regex` does, and the
//! matcher is verified against these statements.

use regex::RegexSet;
use vstd::prelude::*;

verus! {

/// `regex::RegexSet`: regular expressions that are searched for together.
#[verifier::external_type_specification]
#[verifier::external_body]
pub struct ExRegexSet(RegexSet);

/// `regex::Error`: why a regular expression was not compiled.
#[verifier::external_type_specification]
#[verifier::external_body]
pub struct ExRegexError(regex::Error);

/// The text of each pattern of a list.
pub open spec fn texts(patterns: Seq<String>) -> Seq<Seq<char>> {
    Seq::new(patterns.len(), |i: int| patterns[i]@)
}

/// Whether `RegexSet::new` compiles these patterns into a set.
pub uninterp spec fn regex_set_compiles(patterns: Seq<Seq<char>>) -> bool;

/// The patterns that a set was made from, in order (`RegexSet::patterns`).
pub uninterp spec fn regex_set_patterns(set: RegexSet) -> Seq<Seq<char>>;

/// Whether a set made from these patterns has an expression that matches
/// somewhere in the text (`RegexSet::is_match`).
pub uninterp spec fn regex_set_matches(patterns: Seq<Seq<char>>, text: Seq<char>) -> bool;

/// `RegexSet::new`: compiles the patterns with the default configuration. It
/// succeeds exactly where `regex_set_compiles` holds of them, and the set is
/// then one of these patterns in the same order.
#[verifier::external_body]
pub(crate) fn compile_regex_set(patterns: &Vec<String>) -> (compiled: Result<RegexSet, regex::Error>)
    ensures
        compiled is Ok <==> regex_set_compiles(texts(patterns@)),
        compiled matches Ok(set) ==> regex_set_patterns(set) == texts(patterns@),
{
    RegexSet::new(patterns)
}

/// `RegexSet::is_match`: whether any expression of the set matches somewhere
/// in the text.
#[verifier::external_body]
pub(crate) fn regex_set_is_match(set: &RegexSet, text: &str) -> (hit: bool)
    ensures
        hit == regex_set_matches(regex_set_patterns(*set), text@),
{
    set.is_match(text)
}

} // verus!
