//! The note trail of a request: free text that is only ever extended.

use vstd::prelude::*;
use vstd::string::*;

verus! {

/// What stands between two notes of a trail.
pub open spec fn note_separator() -> Seq<char> {
    " | "@
}

/// The trail after `note` has been added: an empty note changes nothing, a
/// first note becomes the trail, a later one follows the separator.
pub open spec fn joined_notes(trail: Seq<char>, note: Seq<char>) -> Seq<char> {
    if note.len() == 0 {
        trail
    } else if trail.len() == 0 {
        note
    } else {
        trail + note_separator() + note
    }
}

/// Adds `note` to `trail`.
pub fn append_note(trail: String, note: String) -> (joined: String)
    ensures
        joined@ == joined_notes(trail@, note@),
{
    if note.as_str().is_empty() {
        trail
    } else if trail.as_str().is_empty() {
        note
    } else {
        trail.concat(" | ").concat(note.as_str())
    }
}

/// The separator is a space, a vertical bar and a space.
pub proof fn note_separator_chars()
    ensures
        note_separator() == seq![' ', '|', ' '],
{
    reveal_strlit(" | ");
}

/// Notes are append-only: whatever is added, the trail so far is kept as
/// the beginning of the new trail.
pub proof fn notes_only_grow(trail: Seq<char>, note: Seq<char>)
    ensures
        trail.is_prefix_of(joined_notes(trail, note)),
        joined_notes(trail, note).len() >= trail.len(),
{
}

/// Two non-empty notes added in turn to an empty trail give the first, the
/// separator and the second.
pub proof fn two_notes_join(first: Seq<char>, second: Seq<char>)
    requires
        first.len() > 0,
        second.len() > 0,
    ensures
        joined_notes(joined_notes(Seq::empty(), first), second) == first + note_separator()
            + second,
{
}

/// A non-empty note added to a trail is the end of the new trail.
pub proof fn added_note_ends_trail(trail: Seq<char>, note: Seq<char>)
    requires
        note.len() > 0,
    ensures
        note.is_suffix_of(joined_notes(trail, note)),
{
}

} // verus!
