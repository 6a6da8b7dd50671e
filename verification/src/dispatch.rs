//! The dispatcher: the steps that lead from a candidate path to an outcome.
//!
//! The same steps serve a path found by a scan and one reported by a watcher.
//! The dispatcher decides; its caller reads the kind of the entry when asked to,
//! hides the entry when asked to, and reports back.

use crate::filesystem::{HideError, ObjectType};
use crate::filter::{file_type_matches, type_accepted};
use crate::matcher::{evaluate, Matcher, MatcherType, Verdict};
use vstd::prelude::*;

verus! {

/// Why a candidate was passed over.
#[derive(Clone, Copy, Debug, PartialEq, Eq, Structural)]
pub enum SkipReason {
    /// The kind of the entry could not be read.
    Unreadable,
    /// The kind of the entry is not among those accepted.
    TypeNotAccepted,
    /// An exclude rule of this family matched the path.
    Excluded(MatcherType),
    /// Include rules were given and none matched the path.
    NoPatternMatched,
}

/// How the processing of one candidate ended.
#[derive(Clone, Copy, Debug, PartialEq, Eq, Structural)]
pub enum DispatchOutcome {
    Hidden,
    WouldHide,
    Skipped(SkipReason),
    Failed(HideError),
}

/// What the caller is to do next for a candidate.
#[derive(Clone, Copy, Debug, PartialEq, Eq, Structural)]
pub enum Step {
    /// Read the kind of the entry and hand it to `classified`.
    Classify,
    /// Hide the entry and hand the result to `hidden`.
    Hide,
    /// Nothing more: this is the outcome.
    Done(DispatchOutcome),
}

/// Where a line on an outcome goes.
#[derive(Clone, Copy, Debug, PartialEq, Eq, Structural)]
pub enum Stream {
    Success,
    Diagnostic,
    Silent,
}

/// The step that follows the pattern match: a path that does not match is
/// skipped, with the family of the rule that excluded it if one did; one that
/// matches is hidden, or in a dry run only reported.
pub open spec fn step_after_match(found: Verdict, dry_run: bool) -> Step {
    if !found.result {
        Step::Done(
            DispatchOutcome::Skipped(
                match found.matcher_type {
                    Some(family) => SkipReason::Excluded(family),
                    None => SkipReason::NoPatternMatched,
                },
            ),
        )
    } else if dry_run {
        Step::Done(DispatchOutcome::WouldHide)
    } else {
        Step::Hide
    }
}

/// The first step for a candidate: with a set of accepted kinds the kind is
/// read first; without one the type filter is bypassed.
pub open spec fn first_step(types: Option<Seq<ObjectType>>, found: Verdict, dry_run: bool) -> Step {
    match types {
        Some(_) => Step::Classify,
        None => step_after_match(found, dry_run),
    }
}

/// The step that follows the reading of the kind; `None` stands for a kind
/// that could not be read.
pub open spec fn step_after_classify(
    kind: Option<ObjectType>,
    types: Seq<ObjectType>,
    found: Verdict,
    dry_run: bool,
) -> Step {
    match kind {
        None => Step::Done(DispatchOutcome::Skipped(SkipReason::Unreadable)),
        Some(kind) => if types.contains(kind) {
            step_after_match(found, dry_run)
        } else {
            Step::Done(DispatchOutcome::Skipped(SkipReason::TypeNotAccepted))
        },
    }
}

/// The outcome that follows an attempt to hide.
pub open spec fn outcome_after_hide(result: Result<(), HideError>) -> DispatchOutcome {
    match result {
        Ok(_) => DispatchOutcome::Hidden,
        Err(error) => DispatchOutcome::Failed(error),
    }
}

/// The outcome of a whole run on one candidate. `kind` is what a reading of the
/// kind gives (`None` where it fails) and `hide` what an attempt to hide gives;
/// each is looked at only where the run gets that far.
pub open spec fn outcome(
    types: Option<Seq<ObjectType>>,
    kind: Option<ObjectType>,
    found: Verdict,
    dry_run: bool,
    hide: Result<(), HideError>,
) -> DispatchOutcome {
    let step = match first_step(types, found, dry_run) {
        Step::Classify => step_after_classify(kind, types->0, found, dry_run),
        step => step,
    };
    match step {
        Step::Done(outcome) => outcome,
        _ => outcome_after_hide(hide),
    }
}

fn after_match(path: &[u8], matcher: &Matcher, dry_run: bool) -> (step: Step)
    ensures
        step == step_after_match(evaluate(matcher@, path@), dry_run),
{
    let found = matcher.matches(path);
    if !found.result {
        let reason = match found.matcher_type {
            Some(family) => SkipReason::Excluded(family),
            None => SkipReason::NoPatternMatched,
        };
        Step::Done(DispatchOutcome::Skipped(reason))
    } else if dry_run {
        Step::Done(DispatchOutcome::WouldHide)
    } else {
        Step::Hide
    }
}

/// Begins the processing of a candidate, given as the bytes of its path.
pub fn begin(
    path: &[u8],
    accepted_types: Option<&[ObjectType]>,
    matcher: &Matcher,
    dry_run: bool,
) -> (step: Step)
    ensures
        step == first_step(
            match accepted_types {
                Some(types) => Some(types@),
                None => None,
            },
            evaluate(matcher@, path@),
            dry_run,
        ),
{
    match accepted_types {
        Some(_) => Step::Classify,
        None => after_match(path, matcher, dry_run),
    }
}

/// Goes on once the kind of the entry was read; `None` says that the reading
/// failed.
pub fn classified(
    path: &[u8],
    kind: Option<ObjectType>,
    accepted_types: &[ObjectType],
    matcher: &Matcher,
    dry_run: bool,
) -> (step: Step)
    ensures
        step == step_after_classify(kind, accepted_types@, evaluate(matcher@, path@), dry_run),
        step != Step::Classify,
{
    if kind.is_none() {
        Step::Done(DispatchOutcome::Skipped(SkipReason::Unreadable))
    } else if file_type_matches(kind, Some(accepted_types)) {
        after_match(path, matcher, dry_run)
    } else {
        Step::Done(DispatchOutcome::Skipped(SkipReason::TypeNotAccepted))
    }
}

/// Ends the processing once the entry was hidden, or was not.
pub fn hidden(result: Result<(), HideError>) -> (outcome: DispatchOutcome)
    ensures
        outcome == outcome_after_hide(result),
{
    match result {
        Ok(_) => DispatchOutcome::Hidden,
        Err(error) => DispatchOutcome::Failed(error),
    }
}

impl DispatchOutcome {
    /// Where a line on this outcome goes: what was or would be hidden to the
    /// success stream; an entry that could not be read or hidden to the
    /// diagnostic stream; any other skip there too, but only when `verbose`.
    pub open spec fn spec_stream(self, verbose: bool) -> Stream {
        match self {
            DispatchOutcome::Hidden | DispatchOutcome::WouldHide => Stream::Success,
            DispatchOutcome::Failed(_) => Stream::Diagnostic,
            DispatchOutcome::Skipped(SkipReason::Unreadable) => Stream::Diagnostic,
            DispatchOutcome::Skipped(_) => if verbose {
                Stream::Diagnostic
            } else {
                Stream::Silent
            },
        }
    }

    /// Where a line on this outcome goes.
    pub fn stream(&self, verbose: bool) -> (stream: Stream)
        ensures
            stream == self.spec_stream(verbose),
    {
        match self {
            DispatchOutcome::Hidden | DispatchOutcome::WouldHide => Stream::Success,
            DispatchOutcome::Failed(_) => Stream::Diagnostic,
            DispatchOutcome::Skipped(SkipReason::Unreadable) => Stream::Diagnostic,
            DispatchOutcome::Skipped(_) => if verbose {
                Stream::Diagnostic
            } else {
                Stream::Silent
            },
        }
    }
}

/// Nothing is hidden before both filters have passed: where a run comes to
/// hide an entry, or reports that it would, the kind of the entry was accepted
/// and the path matched.
pub proof fn lemma_hide_only_after_filters(
    types: Option<Seq<ObjectType>>,
    kind: Option<ObjectType>,
    found: Verdict,
    dry_run: bool,
    hide: Result<(), HideError>,
)
    requires
        outcome(types, kind, found, dry_run, hide) is Hidden || outcome(
            types,
            kind,
            found,
            dry_run,
            hide,
        ) is WouldHide || outcome(types, kind, found, dry_run, hide) is Failed,
    ensures
        type_accepted(kind, types),
        found.result,
{
}

/// A dry run alters nothing: it never comes to the step that hides, and so
/// never ends in `Hidden` or `Failed`.
pub proof fn lemma_dry_run_never_hides(
    types: Option<Seq<ObjectType>>,
    kind: Option<ObjectType>,
    found: Verdict,
    hide: Result<(), HideError>,
)
    ensures
        first_step(types, found, true) != Step::Hide,
        types is Some ==> step_after_classify(kind, types->0, found, true) != Step::Hide,
        !(outcome(types, kind, found, true, hide) is Hidden),
        !(outcome(types, kind, found, true, hide) is Failed),
{
}

/// Every candidate that passes both filters is acted upon: outside a dry run
/// the outcome is that of the attempt to hide, and in a dry run `WouldHide`.
pub proof fn lemma_accepted_match_is_dispatched(
    types: Option<Seq<ObjectType>>,
    kind: Option<ObjectType>,
    found: Verdict,
    dry_run: bool,
    hide: Result<(), HideError>,
)
    requires
        type_accepted(kind, types),
        found.result,
    ensures
        outcome(types, kind, found, dry_run, hide) == (if dry_run {
            DispatchOutcome::WouldHide
        } else {
            outcome_after_hide(hide)
        }),
{
}

} // verus!
