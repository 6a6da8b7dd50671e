//! How the roots are walked.
//!
//! The walk itself reads directories and is the caller's; what is fixed here is
//! how it is set up.

use crate::dispatch::{begin, first_step, Step};
use crate::filesystem::ObjectType;
use crate::matcher::{evaluate, Matcher};
use vstd::prelude::*;

verus! {

/// The seconds a walk waits for a busy worker pool before it gives up the
/// attempt; the caller then starts the walk again.
pub const BUSY_TIMEOUT_SECS: u64 = 3;

/// How a root is walked.
#[derive(Clone, Copy, Debug, PartialEq, Eq, Structural)]
pub struct WalkOptions {
    /// Whether links to directories are descended into.
    pub follow_links: bool,
    /// Whether entries that are hidden already are left out of the walk.
    pub skip_hidden: bool,
    /// How deep below the root the walk goes; the root itself is at depth 0.
    pub max_depth: usize,
    /// The seconds to wait for a busy worker pool.
    pub busy_timeout_secs: u64,
}

/// The depth to which a root is walked: without bound where the walk is
/// recursive, else to the direct children of the root.
pub open spec fn depth_limit(recursive: bool) -> usize {
    if recursive {
        usize::MAX
    } else {
        1
    }
}

/// The options of a walk: links are followed, hidden entries are visited like
/// any other, and the depth is bounded by `depth_limit`.
pub fn walk_options(recursive: bool) -> (options: WalkOptions)
    ensures
        options == (WalkOptions {
            follow_links: true,
            skip_hidden: false,
            max_depth: depth_limit(recursive),
            busy_timeout_secs: BUSY_TIMEOUT_SECS,
        }),
{
    WalkOptions {
        follow_links: true,
        skip_hidden: false,
        max_depth: if recursive {
            usize::MAX
        } else {
            1
        },
        busy_timeout_secs: BUSY_TIMEOUT_SECS,
    }
}

/// What is to be done on one entry of a walk.
#[derive(Clone, Copy, Debug, PartialEq, Eq, Structural)]
pub enum Visit {
    /// The walk could not read the entry: report it and go on.
    ReportUnreadable,
    /// The entry is a candidate, and this is its first step.
    Dispatch(Step),
}

/// Takes up one entry of a walk: one that the walk could not read (`None`) is
/// passed over, any other begins its processing, as a path reported by a
/// watcher does.
pub fn visit(
    entry: Option<&[u8]>,
    accepted_types: Option<&[ObjectType]>,
    matcher: &Matcher,
    dry_run: bool,
) -> (visit: Visit)
    ensures
        visit == (match entry {
            None => Visit::ReportUnreadable,
            Some(path) => Visit::Dispatch(
                first_step(
                    match accepted_types {
                        Some(types) => Some(types@),
                        None => None,
                    },
                    evaluate(matcher@, path@),
                    dry_run,
                ),
            ),
        }),
{
    match entry {
        None => Visit::ReportUnreadable,
        Some(path) => Visit::Dispatch(begin(path, accepted_types, matcher, dry_run)),
    }
}

} // verus!
