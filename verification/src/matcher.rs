//! The pattern matcher: four optional rule sets with a fixed order of precedence.
//!
//! A path is held against exclude globs, exclude regexes, include globs and
//! include regexes, in that order. Globs see the path as bytes; regexes see it as
//! text. What `globset` and `regex` answer is taken as given (see `globs` and
//! `regexes`); what is made of the answers is verified here.

use crate::globs::{
    add_glob, build_glob_set, builder_patterns, glob_parses, glob_set_builds, glob_set_is_match,
    glob_set_matches, glob_set_patterns, new_builder, parse_glob,
};
use crate::regexes::{
    compile_regex_set, regex_set_compiles, regex_set_is_match, regex_set_matches,
    regex_set_patterns, texts,
};
use crate::text::{lossy_decode, lossy_text, utf8_text};
use globset::GlobSet;
use regex::RegexSet;
use vstd::prelude::*;
use vstd::utf8::{decode_utf8, valid_utf8};

verus! {

/// The family of patterns that decided a match.
#[derive(Debug, Clone, Copy, Hash, PartialEq, Eq, Structural)]
pub enum MatcherType {
    Glob,
    Regex,
}

/// One of the four rule sets of a matcher.
#[derive(Debug, Clone, Copy, Hash, PartialEq, Eq, Structural)]
pub enum RuleKind {
    GlobInclude,
    GlobExclude,
    RegexInclude,
    RegexExclude,
}

/// The result of holding a path against a matcher. `matcher_type` names the
/// family of the rule set that decided, if one did. `lossy` holds the path as
/// text where it is not valid UTF-8, for diagnostics.
#[derive(Debug, Clone, Hash, PartialEq, Eq)]
pub struct MatchResult {
    pub result: bool,
    pub matcher_type: Option<MatcherType>,
    pub lossy: Option<String>,
}

/// A match result as a mathematical value.
pub struct Verdict {
    pub result: bool,
    pub matcher_type: Option<MatcherType>,
    pub lossy: Option<Seq<char>>,
}

impl View for MatchResult {
    type V = Verdict;

    open spec fn view(&self) -> Verdict {
        Verdict {
            result: self.result,
            matcher_type: self.matcher_type,
            lossy: match self.lossy {
                Some(text) => Some(text@),
                None => None,
            },
        }
    }
}

/// For each rule set, whether it was supplied and, if so, whether one of its
/// patterns matched the path.
#[derive(Debug, Clone, Copy, PartialEq, Eq)]
pub struct RuleHits {
    pub include_glob: Option<bool>,
    pub exclude_glob: Option<bool>,
    pub include_regex: Option<bool>,
    pub exclude_regex: Option<bool>,
}

/// The rule set that decides, by the fixed order: an exclude glob that matched,
/// else an exclude regex that matched, else an include glob, else an include
/// regex; none if no pattern matched.
pub open spec fn deciding_rule(hits: RuleHits) -> Option<RuleKind> {
    if hits.exclude_glob == Some(true) {
        Some(RuleKind::GlobExclude)
    } else if hits.exclude_regex == Some(true) {
        Some(RuleKind::RegexExclude)
    } else if hits.include_glob == Some(true) {
        Some(RuleKind::GlobInclude)
    } else if hits.include_regex == Some(true) {
        Some(RuleKind::RegexInclude)
    } else {
        None
    }
}

/// Whether the path matches overall. An exclude rule that matched refuses it, an
/// include rule that matched accepts it. Where no pattern matched, the path is
/// accepted exactly if no include rule set was supplied.
pub open spec fn accepted(hits: RuleHits) -> bool {
    match deciding_rule(hits) {
        Some(RuleKind::GlobExclude) | Some(RuleKind::RegexExclude) => false,
        Some(RuleKind::GlobInclude) | Some(RuleKind::RegexInclude) => true,
        None => hits.include_glob is None && hits.include_regex is None,
    }
}

/// The family of a rule set.
pub open spec fn family(kind: RuleKind) -> MatcherType {
    match kind {
        RuleKind::GlobInclude | RuleKind::GlobExclude => MatcherType::Glob,
        RuleKind::RegexInclude | RuleKind::RegexExclude => MatcherType::Regex,
    }
}

/// The verdict that follows from the hits of the four rule sets.
pub open spec fn verdict(hits: RuleHits, lossy: Option<Seq<char>>) -> Verdict {
    Verdict {
        result: accepted(hits),
        matcher_type: match deciding_rule(hits) {
            Some(kind) => Some(family(kind)),
            None => None,
        },
        lossy,
    }
}

/// Decides a match from the hits of the four rule sets.
pub fn decide(hits: RuleHits, lossy: Option<String>) -> (decided: MatchResult)
    ensures
        decided@ == verdict(
            hits,
            match lossy {
                Some(text) => Some(text@),
                None => None,
            },
        ),
{
    if is_hit(hits.exclude_glob) {
        MatchResult { result: false, matcher_type: Some(MatcherType::Glob), lossy }
    } else if is_hit(hits.exclude_regex) {
        MatchResult { result: false, matcher_type: Some(MatcherType::Regex), lossy }
    } else if is_hit(hits.include_glob) {
        MatchResult { result: true, matcher_type: Some(MatcherType::Glob), lossy }
    } else if is_hit(hits.include_regex) {
        MatchResult { result: true, matcher_type: Some(MatcherType::Regex), lossy }
    } else {
        let open = hits.include_glob.is_none() && hits.include_regex.is_none();
        MatchResult { result: open, matcher_type: None, lossy }
    }
}

fn is_hit(hit: Option<bool>) -> (yes: bool)
    ensures
        yes == (hit == Some(true)),
{
    match hit {
        Some(matched) => matched,
        None => false,
    }
}

impl From<MatchResult> for bool {
    /// A match result as a truth value: whether the path matched.
    fn from(found: MatchResult) -> (matched: bool) {
        found.result
    }
}

impl vstd::std_specs::convert::FromSpecImpl<MatchResult> for bool {
    open spec fn obeys_from_spec() -> bool {
        true
    }

    open spec fn from_spec(found: MatchResult) -> bool {
        found.result
    }
}

impl MatcherType {
    /// The family's name in lower case.
    pub fn name(&self) -> (name: &'static str)
        ensures
            name@ == (match *self {
                MatcherType::Glob => "glob"@,
                MatcherType::Regex => "regex"@,
            }),
    {
        match self {
            MatcherType::Glob => "glob",
            MatcherType::Regex => "regex",
        }
    }
}

impl MatchResult {
    /// The rule set that decided this result, if one did: the family says
    /// whether a glob or a regex, the result whether it included or excluded.
    pub open spec fn spec_decided_by(self) -> Option<RuleKind> {
        match self.matcher_type {
            None => None,
            Some(MatcherType::Glob) => Some(
                if self.result {
                    RuleKind::GlobInclude
                } else {
                    RuleKind::GlobExclude
                },
            ),
            Some(MatcherType::Regex) => Some(
                if self.result {
                    RuleKind::RegexInclude
                } else {
                    RuleKind::RegexExclude
                },
            ),
        }
    }

    /// The rule set that decided this result, if one did.
    pub fn decided_by(&self) -> (kind: Option<RuleKind>)
        ensures
            kind == self.spec_decided_by(),
    {
        match self.matcher_type {
            None => None,
            Some(MatcherType::Glob) => Some(
                if self.result {
                    RuleKind::GlobInclude
                } else {
                    RuleKind::GlobExclude
                },
            ),
            Some(MatcherType::Regex) => Some(
                if self.result {
                    RuleKind::RegexInclude
                } else {
                    RuleKind::RegexExclude
                },
            ),
        }
    }
}

/// The patterns that a matcher was built from; `None` where no rule set of a
/// kind was supplied.
pub struct RuleSets {
    pub include_glob: Option<Seq<Seq<char>>>,
    pub exclude_glob: Option<Seq<Seq<char>>>,
    pub include_regex: Option<Seq<Seq<char>>>,
    pub exclude_regex: Option<Seq<Seq<char>>>,
}

/// The path as the regexes see it: its text where it is valid UTF-8, and the
/// lossy rendering where it is not.
pub open spec fn path_text(path: Seq<u8>) -> Seq<char> {
    if valid_utf8(path) {
        decode_utf8(path)
    } else {
        lossy_decode(path)
    }
}

/// The lossy rendering of a path that is not valid UTF-8; none for one that is.
pub open spec fn lossy_of(path: Seq<u8>) -> Option<Seq<char>> {
    if valid_utf8(path) {
        None
    } else {
        Some(lossy_decode(path))
    }
}

/// Whether a glob rule set, where supplied, matches the path.
pub open spec fn glob_hit(patterns: Option<Seq<Seq<char>>>, path: Seq<u8>) -> Option<bool> {
    match patterns {
        Some(patterns) => Some(glob_set_matches(patterns, path)),
        None => None,
    }
}

/// Whether a regex rule set, where supplied, matches the path as text.
pub open spec fn regex_hit(patterns: Option<Seq<Seq<char>>>, path: Seq<u8>) -> Option<bool> {
    match patterns {
        Some(patterns) => Some(regex_set_matches(patterns, path_text(path))),
        None => None,
    }
}

/// The hits of the four rule sets on a path.
pub open spec fn hits_on(rules: RuleSets, path: Seq<u8>) -> RuleHits {
    RuleHits {
        include_glob: glob_hit(rules.include_glob, path),
        exclude_glob: glob_hit(rules.exclude_glob, path),
        include_regex: regex_hit(rules.include_regex, path),
        exclude_regex: regex_hit(rules.exclude_regex, path),
    }
}

/// The verdict of a set of rules on a path.
pub open spec fn evaluate(rules: RuleSets, path: Seq<u8>) -> Verdict {
    verdict(hits_on(rules, path), lossy_of(path))
}

/// Why a matcher was not built: the rule set that failed and, where one pattern
/// is at fault, that pattern. The pattern is none where each pattern is
/// accepted alone and the set as a whole is not.
#[derive(Debug, Clone, Hash, PartialEq, Eq)]
pub struct CompileError {
    pub kind: RuleKind,
    pub pattern: Option<String>,
}

/// A compile error as a mathematical value.
pub struct CompileFault {
    pub kind: RuleKind,
    pub pattern: Option<Seq<char>>,
}

impl View for CompileError {
    type V = CompileFault;

    open spec fn view(&self) -> CompileFault {
        CompileFault {
            kind: self.kind,
            pattern: match self.pattern {
                Some(text) => Some(text@),
                None => None,
            },
        }
    }
}

/// The first pattern, from index `from` on, that is not a glob.
pub open spec fn first_unparsed(patterns: Seq<Seq<char>>, from: int) -> Option<Seq<char>>
    decreases patterns.len() - from,
{
    if from < 0 || from >= patterns.len() {
        None
    } else if !glob_parses(patterns[from]) {
        Some(patterns[from])
    } else {
        first_unparsed(patterns, from + 1)
    }
}

/// The first pattern, from index `from` on, that is not a regex on its own.
pub open spec fn first_uncompiled(patterns: Seq<Seq<char>>, from: int) -> Option<Seq<char>>
    decreases patterns.len() - from,
{
    if from < 0 || from >= patterns.len() {
        None
    } else if !regex_set_compiles(seq![patterns[from]]) {
        Some(patterns[from])
    } else {
        first_uncompiled(patterns, from + 1)
    }
}

/// What is wrong with a list of glob patterns: the first that does not parse;
/// failing that, the set if it does not build; else nothing.
pub open spec fn glob_fault(kind: RuleKind, patterns: Seq<Seq<char>>) -> Option<CompileFault> {
    match first_unparsed(patterns, 0) {
        Some(pattern) => Some(CompileFault { kind, pattern: Some(pattern) }),
        None => if glob_set_builds(patterns) {
            None
        } else {
            Some(CompileFault { kind, pattern: None })
        },
    }
}

/// What is wrong with a list of regex patterns: nothing if they compile as a
/// set; else the first that does not compile alone, if there is one.
pub open spec fn regex_fault(kind: RuleKind, patterns: Seq<Seq<char>>) -> Option<CompileFault> {
    if regex_set_compiles(patterns) {
        None
    } else {
        Some(CompileFault { kind, pattern: first_uncompiled(patterns, 0) })
    }
}

/// The patterns of an optional list, as text.
pub open spec fn supplied(patterns: Option<Vec<String>>) -> Option<Seq<Seq<char>>> {
    match patterns {
        Some(list) => Some(texts(list@)),
        None => None,
    }
}

/// The rules that four optional lists of patterns stand for.
pub open spec fn rules_of(
    globs: Option<Vec<String>>,
    globs_exclude: Option<Vec<String>>,
    regexes: Option<Vec<String>>,
    regexes_exclude: Option<Vec<String>>,
) -> RuleSets {
    RuleSets {
        include_glob: supplied(globs),
        exclude_glob: supplied(globs_exclude),
        include_regex: supplied(regexes),
        exclude_regex: supplied(regexes_exclude),
    }
}

/// The fault of the first rule set that has one, in the order in which a
/// matcher is built: include globs, exclude globs, include regexes, exclude
/// regexes. A rule set that was not supplied has none.
pub open spec fn build_fault(rules: RuleSets) -> Option<CompileFault> {
    if rules.include_glob is Some && glob_fault(
        RuleKind::GlobInclude,
        rules.include_glob->0,
    ) is Some {
        glob_fault(RuleKind::GlobInclude, rules.include_glob->0)
    } else if rules.exclude_glob is Some && glob_fault(
        RuleKind::GlobExclude,
        rules.exclude_glob->0,
    ) is Some {
        glob_fault(RuleKind::GlobExclude, rules.exclude_glob->0)
    } else if rules.include_regex is Some && regex_fault(
        RuleKind::RegexInclude,
        rules.include_regex->0,
    ) is Some {
        regex_fault(RuleKind::RegexInclude, rules.include_regex->0)
    } else if rules.exclude_regex is Some {
        regex_fault(RuleKind::RegexExclude, rules.exclude_regex->0)
    } else {
        None
    }
}

/// Compiles a list of glob patterns into one set.
fn compile_globs(kind: RuleKind, patterns: &Vec<String>) -> (compiled: Result<GlobSet, CompileError>)
    ensures
        match compiled {
            Ok(set) => glob_fault(kind, texts(patterns@)) is None && glob_set_patterns(set)
                == texts(patterns@),
            Err(error) => glob_fault(kind, texts(patterns@)) == Some(error@),
        },
{
    let ghost all = texts(patterns@);
    let mut builder = new_builder();
    let mut i: usize = 0;
    while i < patterns.len()
        invariant
            i <= patterns.len(),
            all == texts(patterns@),
            builder_patterns(builder) == all.subrange(0, i as int),
            first_unparsed(all, 0) == first_unparsed(all, i as int),
        decreases patterns.len() - i,
    {
        match parse_glob(patterns[i].as_str()) {
            Ok(glob) => {
                add_glob(&mut builder, glob);
                assert(all.subrange(0, i as int).push(all[i as int]) == all.subrange(
                    0,
                    i as int + 1,
                ));
            },
            Err(_) => {
                return Err(CompileError { kind, pattern: Some(patterns[i].clone()) });
            },
        }
        i += 1;
    }
    assert(all.subrange(0, i as int) == all);
    match build_glob_set(&builder) {
        Ok(set) => Ok(set),
        Err(_) => Err(CompileError { kind, pattern: None }),
    }
}

/// Compiles a list of regex patterns into one set. Where the set is refused,
/// the patterns are tried one by one to find the first at fault.
fn compile_regexes(kind: RuleKind, patterns: &Vec<String>) -> (compiled: Result<
    RegexSet,
    CompileError,
>)
    ensures
        match compiled {
            Ok(set) => regex_fault(kind, texts(patterns@)) is None && regex_set_patterns(set)
                == texts(patterns@),
            Err(error) => regex_fault(kind, texts(patterns@)) == Some(error@),
        },
{
    match compile_regex_set(patterns) {
        Ok(set) => Ok(set),
        Err(_) => {
            let ghost all = texts(patterns@);
            let mut i: usize = 0;
            while i < patterns.len()
                invariant
                    i <= patterns.len(),
                    all == texts(patterns@),
                    !regex_set_compiles(all),
                    first_uncompiled(all, 0) == first_uncompiled(all, i as int),
                decreases patterns.len() - i,
            {
                let mut alone: Vec<String> = Vec::new();
                alone.push(patterns[i].clone());
                assert(texts(alone@) == seq![all[i as int]]);
                if compile_regex_set(&alone).is_err() {
                    return Err(CompileError { kind, pattern: Some(patterns[i].clone()) });
                }
                i += 1;
            }
            Err(CompileError { kind, pattern: None })
        },
    }
}

/// A compiled set of rules. It does not change once built.
#[derive(Debug, Clone)]
pub struct Matcher {
    globs: Option<GlobSet>,
    globs_exclude: Option<GlobSet>,
    regexes: Option<RegexSet>,
    regexes_exclude: Option<RegexSet>,
}

impl View for Matcher {
    type V = RuleSets;

    closed spec fn view(&self) -> RuleSets {
        RuleSets {
            include_glob: match self.globs {
                Some(set) => Some(glob_set_patterns(set)),
                None => None,
            },
            exclude_glob: match self.globs_exclude {
                Some(set) => Some(glob_set_patterns(set)),
                None => None,
            },
            include_regex: match self.regexes {
                Some(set) => Some(regex_set_patterns(set)),
                None => None,
            },
            exclude_regex: match self.regexes_exclude {
                Some(set) => Some(regex_set_patterns(set)),
                None => None,
            },
        }
    }
}

impl Matcher {
    /// Builds a matcher from up to four lists of patterns. A list that is not
    /// supplied stands for no rule of its kind. The build fails as a whole on the
    /// first rule set that has a fault.
    pub fn new(
        globs: Option<Vec<String>>,
        globs_exclude: Option<Vec<String>>,
        regexes: Option<Vec<String>>,
        regexes_exclude: Option<Vec<String>>,
    ) -> (built: Result<Matcher, CompileError>)
        ensures
            match built {
                Ok(matcher) => build_fault(
                    rules_of(globs, globs_exclude, regexes, regexes_exclude),
                ) is None && matcher@ == rules_of(globs, globs_exclude, regexes, regexes_exclude),
                Err(error) => build_fault(
                    rules_of(globs, globs_exclude, regexes, regexes_exclude),
                ) == Some(error@),
            },
    {
        let include_glob = match &globs {
            Some(patterns) => match compile_globs(RuleKind::GlobInclude, patterns) {
                Ok(set) => Some(set),
                Err(error) => {
                    return Err(error);
                },
            },
            None => None,
        };
        let exclude_glob = match &globs_exclude {
            Some(patterns) => match compile_globs(RuleKind::GlobExclude, patterns) {
                Ok(set) => Some(set),
                Err(error) => {
                    return Err(error);
                },
            },
            None => None,
        };
        let include_regex = match &regexes {
            Some(patterns) => match compile_regexes(RuleKind::RegexInclude, patterns) {
                Ok(set) => Some(set),
                Err(error) => {
                    return Err(error);
                },
            },
            None => None,
        };
        let exclude_regex = match &regexes_exclude {
            Some(patterns) => match compile_regexes(RuleKind::RegexExclude, patterns) {
                Ok(set) => Some(set),
                Err(error) => {
                    return Err(error);
                },
            },
            None => None,
        };
        Ok(
            Matcher {
                globs: include_glob,
                globs_exclude: exclude_glob,
                regexes: include_regex,
                regexes_exclude: exclude_regex,
            },
        )
    }

    /// Holds a path, given as the bytes of its native form, against the rules.
    pub fn matches(&self, path: &[u8]) -> (found: MatchResult)
        ensures
            found@ == evaluate(self@, path@),
    {
        match utf8_text(path) {
            Some(text) => decide(self.hits(path, text), None),
            None => {
                let lossy = lossy_text(path);
                let hits = self.hits(path, lossy.as_str());
                decide(hits, Some(lossy))
            },
        }
    }

    /// Asks each rule set that was supplied whether it matches the path.
    fn hits(&self, path: &[u8], text: &str) -> (hits: RuleHits)
        requires
            text@ == path_text(path@),
        ensures
            hits == hits_on(self@, path@),
    {
        RuleHits {
            include_glob: match &self.globs {
                Some(set) => Some(glob_set_is_match(set, path)),
                None => None,
            },
            exclude_glob: match &self.globs_exclude {
                Some(set) => Some(glob_set_is_match(set, path)),
                None => None,
            },
            include_regex: match &self.regexes {
                Some(set) => Some(regex_set_is_match(set, text)),
                None => None,
            },
            exclude_regex: match &self.regexes_exclude {
                Some(set) => Some(regex_set_is_match(set, text)),
                None => None,
            },
        }
    }
}

/// Whether an exclude rule of the set, glob or regex, matches the path.
pub open spec fn excluded(rules: RuleSets, path: Seq<u8>) -> bool {
    glob_hit(rules.exclude_glob, path) == Some(true) || regex_hit(rules.exclude_regex, path)
        == Some(true)
}

/// Whether an include rule of the set, glob or regex, matches the path.
pub open spec fn included(rules: RuleSets, path: Seq<u8>) -> bool {
    glob_hit(rules.include_glob, path) == Some(true) || regex_hit(rules.include_regex, path)
        == Some(true)
}

/// Where no rule set of any kind was supplied, every path matches, and no rule
/// set is named as having decided.
pub proof fn lemma_no_rules_match_all(rules: RuleSets, path: Seq<u8>)
    requires
        rules.include_glob is None,
        rules.exclude_glob is None,
        rules.include_regex is None,
        rules.exclude_regex is None,
    ensures
        evaluate(rules, path).result,
        evaluate(rules, path).matcher_type is None,
{
}

/// Exclude wins: a path that an exclude rule matches does not match overall,
/// whatever the include rules say.
pub proof fn lemma_exclude_wins(rules: RuleSets, path: Seq<u8>)
    requires
        excluded(rules, path),
    ensures
        !evaluate(rules, path).result,
        evaluate(rules, path).matcher_type is Some,
{
}

/// Where only exclude rules were supplied, a path that none of them matches
/// matches overall.
pub proof fn lemma_only_excludes_accept(rules: RuleSets, path: Seq<u8>)
    requires
        rules.include_glob is None,
        rules.include_regex is None,
        !excluded(rules, path),
    ensures
        evaluate(rules, path).result,
        evaluate(rules, path).matcher_type is None,
{
}

/// Where an include rule set was supplied, a path that no include rule and no
/// exclude rule matches does not match overall.
pub proof fn lemma_unmatched_include_rejects(rules: RuleSets, path: Seq<u8>)
    requires
        rules.include_glob is Some || rules.include_regex is Some,
        !included(rules, path),
        !excluded(rules, path),
    ensures
        !evaluate(rules, path).result,
        evaluate(rules, path).matcher_type is None,
{
}

/// A path that no exclude rule matches and an include rule matches does match
/// overall.
pub proof fn lemma_include_accepts(rules: RuleSets, path: Seq<u8>)
    requires
        included(rules, path),
        !excluded(rules, path),
    ensures
        evaluate(rules, path).result,
        evaluate(rules, path).matcher_type is Some,
{
}

/// The lossy text of a verdict is there exactly for a path that is not valid
/// UTF-8, whatever the rules decide.
pub proof fn lemma_lossy_iff_invalid(rules: RuleSets, path: Seq<u8>)
    ensures
        evaluate(rules, path).lossy is Some <==> !valid_utf8(path),
{
}

proof fn lemma_first_unparsed(patterns: Seq<Seq<char>>, from: int)
    requires
        0 <= from,
    ensures
        match first_unparsed(patterns, from) {
            Some(pattern) => patterns.contains(pattern) && !glob_parses(pattern),
            None => forall|i: int| from <= i < patterns.len() ==> glob_parses(#[trigger] patterns[i]),
        },
    decreases patterns.len() - from,
{
    if from < patterns.len() && glob_parses(patterns[from]) {
        lemma_first_unparsed(patterns, from + 1);
    }
}

proof fn lemma_first_uncompiled(patterns: Seq<Seq<char>>, from: int)
    requires
        0 <= from,
    ensures
        match first_uncompiled(patterns, from) {
            Some(pattern) => patterns.contains(pattern) && !regex_set_compiles(seq![pattern]),
            None => forall|i: int|
                from <= i < patterns.len() ==> regex_set_compiles(seq![#[trigger] patterns[i]]),
        },
    decreases patterns.len() - from,
{
    if from < patterns.len() && regex_set_compiles(seq![patterns[from]]) {
        lemma_first_uncompiled(patterns, from + 1);
    }
}

/// A glob fault names its rule set and the pattern at fault: a pattern of the
/// list that does not parse. It names no pattern only where every pattern
/// parses and the set does not build. A list without a fault holds only
/// patterns that parse, and builds.
pub proof fn lemma_glob_fault_names_offender(kind: RuleKind, patterns: Seq<Seq<char>>)
    ensures
        match glob_fault(kind, patterns) {
            Some(fault) => fault.kind == kind && match fault.pattern {
                Some(pattern) => patterns.contains(pattern) && !glob_parses(pattern),
                None => !glob_set_builds(patterns) && forall|i: int|
                    0 <= i < patterns.len() ==> glob_parses(#[trigger] patterns[i]),
            },
            None => glob_set_builds(patterns) && forall|i: int|
                0 <= i < patterns.len() ==> glob_parses(#[trigger] patterns[i]),
        },
{
    lemma_first_unparsed(patterns, 0);
}

/// A regex fault names its rule set and the pattern at fault: a pattern of the
/// list that does not compile on its own. It names no pattern only where every
/// pattern compiles on its own and the set does not. A list without a fault
/// compiles as a set.
pub proof fn lemma_regex_fault_names_offender(kind: RuleKind, patterns: Seq<Seq<char>>)
    ensures
        match regex_fault(kind, patterns) {
            Some(fault) => fault.kind == kind && !regex_set_compiles(patterns)
                && match fault.pattern {
                Some(pattern) => patterns.contains(pattern) && !regex_set_compiles(seq![pattern]),
                None => forall|i: int|
                    0 <= i < patterns.len() ==> regex_set_compiles(seq![#[trigger] patterns[i]]),
            },
            None => regex_set_compiles(patterns),
        },
{
    lemma_first_uncompiled(patterns, 0);
}

/// The rule set of a kind, where it was supplied.
pub open spec fn rule_set(rules: RuleSets, kind: RuleKind) -> Option<Seq<Seq<char>>> {
    match kind {
        RuleKind::GlobInclude => rules.include_glob,
        RuleKind::GlobExclude => rules.exclude_glob,
        RuleKind::RegexInclude => rules.include_regex,
        RuleKind::RegexExclude => rules.exclude_regex,
    }
}

/// The fault of a build belongs to a rule set that was supplied, and the
/// pattern it names is one of that rule set.
pub proof fn lemma_build_fault_names_offender(rules: RuleSets)
    ensures
        build_fault(rules) matches Some(fault) ==> rule_set(rules, fault.kind) is Some && (
        fault.pattern matches Some(pattern) ==> rule_set(rules, fault.kind)->0.contains(pattern)),
{
    if rules.include_glob is Some {
        lemma_glob_fault_names_offender(RuleKind::GlobInclude, rules.include_glob->0);
    }
    if rules.exclude_glob is Some {
        lemma_glob_fault_names_offender(RuleKind::GlobExclude, rules.exclude_glob->0);
    }
    if rules.include_regex is Some {
        lemma_regex_fault_names_offender(RuleKind::RegexInclude, rules.include_regex->0);
    }
    if rules.exclude_regex is Some {
        lemma_regex_fault_names_offender(RuleKind::RegexExclude, rules.exclude_regex->0);
    }
}

} // verus!
