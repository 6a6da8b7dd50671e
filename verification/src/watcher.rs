//! Change notifications, reduced to candidate paths.
//!
//! A notification yields a candidate only where a path has come to exist or has
//! come by its present name: on a creation, and on a rename that tells the new
//! name. Nothing is remembered from one notification to the next.

use crate::dispatch::{begin, first_step, Step};
use crate::filesystem::ObjectType;
use crate::matcher::{evaluate, Matcher};
use vstd::prelude::*;

verus! {

/// What a rename notification tells.
#[derive(Clone, Copy, Debug, PartialEq, Eq, Structural)]
pub enum RenameMode {
    /// It is not known which side of the rename this is.
    Any,
    /// The new name.
    To,
    /// The old name only.
    From,
    /// Both names in one notification: the old one first, then the new one.
    Both,
    /// Some other form of rename.
    Other,
}

/// The kind of a change notification.
#[derive(Clone, Copy, Debug, PartialEq, Eq, Structural)]
pub enum ChangeKind {
    /// An entry was created.
    Create,
    /// The name of an entry changed.
    Rename(RenameMode),
    /// Anything else: content or metadata changed, an entry was removed or
    /// read.
    Other,
}

/// A change notification: its kind and the paths it concerns, each as the
/// bytes of its native form.
#[derive(Clone, Debug, PartialEq, Eq)]
pub struct RawChangeEvent {
    pub kind: ChangeKind,
    pub paths: Vec<Vec<u8>>,
}

/// A notification that should tell a path tells none.
#[derive(Clone, Copy, Debug, PartialEq, Eq, Structural)]
pub struct MissingPath;

/// Whether a notification of this kind can yield a candidate: a creation, and
/// any rename but one that tells the old name only.
pub open spec fn is_actionable(kind: ChangeKind) -> bool {
    match kind {
        ChangeKind::Create => true,
        ChangeKind::Rename(mode) => mode != RenameMode::From,
        ChangeKind::Other => false,
    }
}

/// Which of the `count` paths of a notification is the candidate. None for a
/// kind that is not actionable. For a creation it is the first path. For a
/// rename it is the second path, the new name, where there are two, else the
/// only one. An actionable notification without any path is an error.
pub open spec fn candidate_index(kind: ChangeKind, count: nat) -> Option<Result<int, MissingPath>> {
    if !is_actionable(kind) {
        None
    } else if count == 0 {
        Some(Err(MissingPath))
    } else if kind is Rename && count >= 2 {
        Some(Ok(1))
    } else {
        Some(Ok(0))
    }
}

/// What is to be done on a change notification.
#[derive(Clone, Copy, Debug, PartialEq, Eq, Structural)]
pub enum Handling {
    /// The notification calls for nothing.
    Ignore,
    /// The notification should tell a path and tells none: report it.
    ReportMissingPath,
    /// The path at `index` is a candidate, and `step` is its first step.
    Dispatch { index: usize, step: Step },
}

impl RawChangeEvent {
    /// Reduces the notification to the index of its candidate path, if it has
    /// one.
    pub fn normalize(&self) -> (candidate: Option<Result<usize, MissingPath>>)
        ensures
            match candidate {
                None => candidate_index(self.kind, self.paths@.len()) is None,
                Some(Err(error)) => candidate_index(self.kind, self.paths@.len()) == Some(
                    Err::<int, MissingPath>(error),
                ),
                Some(Ok(index)) => index < self.paths@.len() && candidate_index(
                    self.kind,
                    self.paths@.len(),
                ) == Some(Ok::<int, MissingPath>(index as int)),
            },
    {
        match self.kind {
            ChangeKind::Create => {
                if self.paths.len() > 0 {
                    Some(Ok(0))
                } else {
                    Some(Err(MissingPath))
                }
            },
            ChangeKind::Rename(RenameMode::From) => None,
            ChangeKind::Rename(_) => {
                if self.paths.len() > 1 {
                    Some(Ok(1))
                } else if self.paths.len() > 0 {
                    Some(Ok(0))
                } else {
                    Some(Err(MissingPath))
                }
            },
            ChangeKind::Other => None,
        }
    }
}

/// Handles one notification: reduces it to its candidate and begins the
/// processing of that path, as for a path found by a scan.
pub fn handle_event(
    event: &RawChangeEvent,
    accepted_types: Option<&[ObjectType]>,
    matcher: &Matcher,
    dry_run: bool,
) -> (handled: Handling)
    ensures
        match candidate_index(event.kind, event.paths@.len()) {
            None => handled == Handling::Ignore,
            Some(Err(_)) => handled == Handling::ReportMissingPath,
            Some(Ok(index)) => index < event.paths@.len() && handled == (Handling::Dispatch {
                index: index as usize,
                step: first_step(
                    match accepted_types {
                        Some(types) => Some(types@),
                        None => None,
                    },
                    evaluate(matcher@, event.paths@[index]@),
                    dry_run,
                ),
            }),
        },
{
    match event.normalize() {
        None => Handling::Ignore,
        Some(Err(_)) => Handling::ReportMissingPath,
        Some(Ok(index)) => {
            let step = begin(event.paths[index].as_slice(), accepted_types, matcher, dry_run);
            Handling::Dispatch { index, step }
        },
    }
}

/// A rename that tells both names yields the new one, never the old one; a
/// creation yields the path it tells; a rename that tells the old name only
/// yields nothing, however many paths come with it.
pub proof fn lemma_rename_yields_destination(mode: RenameMode, count: nat)
    ensures
        mode != RenameMode::From && count >= 2 ==> candidate_index(ChangeKind::Rename(mode), count)
            == Some(Ok::<int, MissingPath>(1)),
        mode != RenameMode::From && count == 1 ==> candidate_index(ChangeKind::Rename(mode), count)
            == Some(Ok::<int, MissingPath>(0)),
        count >= 1 ==> candidate_index(ChangeKind::Create, count) == Some(
            Ok::<int, MissingPath>(0),
        ),
        candidate_index(ChangeKind::Rename(RenameMode::From), count) is None,
        candidate_index(ChangeKind::Other, count) is None,
{
}

} // verus!
