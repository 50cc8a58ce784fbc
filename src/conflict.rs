//! The choice offered when a repository library has local changes.
use vstd::prelude::*;

use crate::text::{lower_of, lowercase, same_text, trim, trimmed};

verus! {

/// How to deal with a working copy's local changes.
#[derive(Debug, Clone, Copy, PartialEq, Eq, Structural)]
pub enum ConflictResolution {
    /// Set the changes aside, update, then bring them back.
    Stash,
    /// Throw the changes away, then update.
    Discard,
    /// Commit the changes, then update.
    Commit,
    /// Leave the library as it is.
    Skip,
}

/// The choice an answer names, once trimmed and in lower case: `s`, `d`, `c`
/// or `k`, or the choice's full name; anything else skips.
pub open spec fn choice_named(a: Seq<char>) -> ConflictResolution {
    if a == "s"@ || a == "stash"@ {
        ConflictResolution::Stash
    } else if a == "d"@ || a == "discard"@ {
        ConflictResolution::Discard
    } else if a == "c"@ || a == "commit"@ {
        ConflictResolution::Commit
    } else {
        ConflictResolution::Skip
    }
}

/// The choice an already trimmed, lower-case answer names.
pub fn choice_from_answer(a: &str) -> (r: ConflictResolution)
    ensures
        r == choice_named(a@),
{
    if same_text(a, "s") || same_text(a, "stash") {
        ConflictResolution::Stash
    } else if same_text(a, "d") || same_text(a, "discard") {
        ConflictResolution::Discard
    } else if same_text(a, "c") || same_text(a, "commit") {
        ConflictResolution::Commit
    } else {
        ConflictResolution::Skip
    }
}

/// The choice a line typed at the prompt names, ignoring surrounding white
/// space and case.
pub fn parse_conflict_choice(input: &str) -> (r: ConflictResolution)
    ensures
        r == choice_named(lower_of(trimmed(input@))),
{
    let t = trim(input);
    let l = lowercase(t.as_str());
    choice_from_answer(l.as_str())
}

} // verus!
