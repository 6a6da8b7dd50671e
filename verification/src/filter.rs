//! The two filters that every candidate passes: by kind of entry, then by
//! pattern.

use crate::filesystem::{matches_type, ObjectType};
use crate::matcher::{evaluate, Matcher};
use vstd::prelude::*;

verus! {

/// Whether an entry of this kind passes a type filter. Without a set of
/// accepted kinds every entry passes, whatever is known of its kind. With one,
/// an entry passes if its kind is known and in the set; `None` stands for a
/// kind that could not be read.
pub open spec fn type_accepted(kind: Option<ObjectType>, types: Option<Seq<ObjectType>>) -> bool {
    match types {
        None => true,
        Some(accepted) => match kind {
            Some(kind) => accepted.contains(kind),
            None => false,
        },
    }
}

/// Holds an entry against the accepted kinds, if any were given.
pub fn file_type_matches(kind: Option<ObjectType>, types: Option<&[ObjectType]>) -> (passes: bool)
    ensures
        passes == type_accepted(
            kind,
            match types {
                Some(accepted) => Some(accepted@),
                None => None,
            },
        ),
{
    match types {
        None => true,
        Some(accepted) => match kind {
            Some(kind) => matches_type(kind, accepted),
            None => false,
        },
    }
}

/// Whether the path, given as the bytes of its native form, matches overall.
pub fn path_matches_pattern(path: &[u8], matcher: &Matcher) -> (passes: bool)
    ensures
        passes == evaluate(matcher@, path@).result,
{
    matcher.matches(path).result
}

} // verus!
