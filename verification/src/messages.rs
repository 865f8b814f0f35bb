//! The failure messages of the command surface.
//!
//! Every fallible command reports its failure as one flat string: a fixed
//! prefix naming the operation, the path it was given, and the underlying
//! cause. The spec functions below state each message exactly; the
//! executable builders are proved to produce it; the lemmas state that each
//! message names the path it speaks of.

use vstd::prelude::*;
use vstd::string::StringExecFns;

verus! {

/// `whole` holds `part` as a contiguous run starting at index `i`.
pub open spec fn text_contains_at(whole: Seq<char>, part: Seq<char>, i: int) -> bool {
    0 <= i && i + part.len() <= whole.len() && whole.subrange(i, i + part.len()) == part
}

/// `whole` holds `part` as a contiguous run somewhere.
pub open spec fn text_contains(whole: Seq<char>, part: Seq<char>) -> bool {
    exists|i: int| text_contains_at(whole, part, i)
}

/// `whole` starts with `part`.
pub open spec fn text_starts_with(whole: Seq<char>, part: Seq<char>) -> bool {
    part.len() <= whole.len() && whole.subrange(0, part.len() as int) == part
}

/// The message of a failed project-file load.
pub open spec fn load_failure_text(path: Seq<char>, cause: Seq<char>) -> Seq<char> {
    "Failed to load project file "@ + path + ": "@ + cause
}

/// The message of a failed project-file save.
pub open spec fn save_project_failure_text(path: Seq<char>, cause: Seq<char>) -> Seq<char> {
    "Failed to save project file "@ + path + ": "@ + cause
}

/// The message of a failed export-file save.
pub open spec fn save_export_failure_text(path: Seq<char>, cause: Seq<char>) -> Seq<char> {
    "Failed to save export file "@ + path + ": "@ + cause
}

/// The message of a rejected base64 export payload.
pub open spec fn decode_failure_text(cause: Seq<char>) -> Seq<char> {
    "Failed to decode base64 content: "@ + cause
}

/// The fixed prefix of every rejected base64 export payload's message.
pub open spec fn decode_failure_prefix() -> Seq<char> {
    "Failed to decode base64 content: "@
}

pub fn load_failure_message(path: &str, cause: &str) -> (r: String)
    ensures
        r@ == load_failure_text(path@, cause@),
{
    let mut m: String = "Failed to load project file ".to_owned();
    m.append(path);
    m.append(": ");
    m.append(cause);
    m
}

pub fn save_project_failure_message(path: &str, cause: &str) -> (r: String)
    ensures
        r@ == save_project_failure_text(path@, cause@),
{
    let mut m: String = "Failed to save project file ".to_owned();
    m.append(path);
    m.append(": ");
    m.append(cause);
    m
}

pub fn save_export_failure_message(path: &str, cause: &str) -> (r: String)
    ensures
        r@ == save_export_failure_text(path@, cause@),
{
    let mut m: String = "Failed to save export file ".to_owned();
    m.append(path);
    m.append(": ");
    m.append(cause);
    m
}

pub fn decode_failure_message(cause: &str) -> (r: String)
    ensures
        r@ == decode_failure_text(cause@),
{
    let mut m: String = "Failed to decode base64 content: ".to_owned();
    m.append(cause);
    m
}

/// Text embedded between two others is contained in the whole.
pub proof fn lemma_embedded_text_is_contained(
    before: Seq<char>,
    part: Seq<char>,
    after: Seq<char>,
)
    ensures
        text_contains(before + part + after, part),
{
    let whole = before + part + after;
    assert(whole.subrange(before.len() as int, before.len() as int + part.len() as int) =~= part);
    assert(text_contains_at(whole, part, before.len() as int));
}

/// A failed load's message names the path that could not be loaded.
pub proof fn lemma_load_failure_names_path(path: Seq<char>, cause: Seq<char>)
    ensures
        text_contains(load_failure_text(path, cause), path),
{
    assert(load_failure_text(path, cause) =~= "Failed to load project file "@ + path + (": "@
        + cause));
    lemma_embedded_text_is_contained("Failed to load project file "@, path, ": "@ + cause);
}

/// A failed project save's message names the path that could not be written.
pub proof fn lemma_save_project_failure_names_path(path: Seq<char>, cause: Seq<char>)
    ensures
        text_contains(save_project_failure_text(path, cause), path),
{
    assert(save_project_failure_text(path, cause) =~= "Failed to save project file "@ + path + (
    ": "@ + cause));
    lemma_embedded_text_is_contained("Failed to save project file "@, path, ": "@ + cause);
}

/// A failed export save's message names the path that could not be written.
pub proof fn lemma_save_export_failure_names_path(path: Seq<char>, cause: Seq<char>)
    ensures
        text_contains(save_export_failure_text(path, cause), path),
{
    assert(save_export_failure_text(path, cause) =~= "Failed to save export file "@ + path + (
    ": "@ + cause));
    lemma_embedded_text_is_contained("Failed to save export file "@, path, ": "@ + cause);
}

/// A rejected payload's message starts with the decode-failure prefix, so
/// it is distinguishable from every filesystem failure's message.
pub proof fn lemma_decode_failure_starts_with_prefix(cause: Seq<char>)
    ensures
        text_starts_with(decode_failure_text(cause), decode_failure_prefix()),
{
    assert(decode_failure_text(cause).subrange(
        0,
        decode_failure_prefix().len() as int,
    ) =~= decode_failure_prefix());
}

} // verus!
