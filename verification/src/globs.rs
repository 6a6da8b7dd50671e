//! Glob sets of the `globset` crate, as far as the matcher uses them.
//!
//! Nothing in this file is proved: each item states what `globset` does, and the
//! matcher is verified against these statements. Every glob is parsed by
//! `Glob::new`, that is with the options that `globset` sets by default for the
//! platform the crate is built for; the statements are about such globs.

use globset::{Candidate, Glob, GlobSet, GlobSetBuilder};
use vstd::prelude::*;

verus! {

/// `globset::Glob`: one parsed glob pattern.
#[verifier::external_type_specification]
#[verifier::external_body]
pub struct ExGlob(Glob);

/// `globset::GlobSetBuilder`: the globs gathered for a set, in the order added.
#[verifier::external_type_specification]
#[verifier::external_body]
pub struct ExGlobSetBuilder(GlobSetBuilder);

/// `globset::GlobSet`: a group of globs that are matched together.
#[verifier::external_type_specification]
#[verifier::external_body]
pub struct ExGlobSet(GlobSet);

/// `globset::Error`: why a glob was not parsed or a set not built.
#[verifier::external_type_specification]
#[verifier::external_body]
pub struct ExGlobError(globset::Error);

/// Whether `Glob::new` accepts the pattern.
pub uninterp spec fn glob_parses(pattern: Seq<char>) -> bool;

/// The pattern that a glob was parsed from (`Glob::glob`).
pub uninterp spec fn glob_text(glob: Glob) -> Seq<char>;

/// The patterns of the globs that a builder holds, in the order added.
pub uninterp spec fn builder_patterns(builder: GlobSetBuilder) -> Seq<Seq<char>>;

/// Whether `GlobSetBuilder::build` succeeds on globs parsed from these patterns.
pub uninterp spec fn glob_set_builds(patterns: Seq<Seq<char>>) -> bool;

/// The patterns of the globs that a set was built from, in order.
pub uninterp spec fn glob_set_patterns(set: GlobSet) -> Seq<Seq<char>>;

/// Whether a set built from these patterns has a glob that matches the path,
/// given as the bytes of its native form (`GlobSet::is_match_candidate`).
pub uninterp spec fn glob_set_matches(patterns: Seq<Seq<char>>, path: Seq<u8>) -> bool;

/// `Glob::new`: parses a pattern with the default options. It succeeds exactly
/// on the patterns that `glob_parses` holds of, and the glob it returns keeps
/// the pattern as its text.
#[verifier::external_body]
pub(crate) fn parse_glob(pattern: &str) -> (parsed: Result<Glob, globset::Error>)
    ensures
        parsed is Ok <==> glob_parses(pattern@),
        parsed matches Ok(glob) ==> glob_text(glob) == pattern@,
{
    Glob::new(pattern)
}

/// `GlobSetBuilder::new`: a builder that holds no glob.
#[verifier::external_body]
pub(crate) fn new_builder() -> (builder: GlobSetBuilder)
    ensures
        builder_patterns(builder) == Seq::<Seq<char>>::empty(),
{
    GlobSetBuilder::new()
}

/// `GlobSetBuilder::add`: appends the glob to those the builder holds.
#[verifier::external_body]
pub(crate) fn add_glob(builder: &mut GlobSetBuilder, glob: Glob)
    ensures
        builder_patterns(*final(builder)) == builder_patterns(*old(builder)).push(glob_text(glob)),
{
    builder.add(glob);
}

/// `GlobSetBuilder::build`: compiles the globs added so far into one set. It
/// succeeds exactly where `glob_set_builds` holds of their patterns, and the
/// set is then one of these patterns in the same order.
#[verifier::external_body]
pub(crate) fn build_glob_set(builder: &GlobSetBuilder) -> (built: Result<GlobSet, globset::Error>)
    ensures
        built is Ok <==> glob_set_builds(builder_patterns(*builder)),
        built matches Ok(set) ==> glob_set_patterns(set) == builder_patterns(*builder),
{
    builder.build()
}

/// `GlobSet::is_match_candidate` on `Candidate::from_bytes`: whether any glob
/// of the set matches the path. The bytes need not be valid text.
#[verifier::external_body]
pub(crate) fn glob_set_is_match(set: &GlobSet, path: &[u8]) -> (hit: bool)
    ensures
        hit == glob_set_matches(glob_set_patterns(*set), path@),
{
    set.is_match_candidate(&Candidate::from_bytes(path))
}

} // verus!
