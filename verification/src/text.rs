//! Small operations on text that the rest of the library is written with.
use vstd::prelude::*;

verus! {

/// The text of an optional string.
pub open spec fn text_of(text: Option<String>) -> Option<Seq<char>> {
    match text {
        Some(text) => Some(text@),
        None => None,
    }
}

/// The texts of several strings.
pub open spec fn texts(strings: Seq<String>) -> Seq<Seq<char>> {
    strings.map_values(|string: String| string@)
}

/// `text` with every trailing `/` taken off.
pub open spec fn without_trailing_slashes(text: Seq<char>) -> Seq<char>
    decreases text.len(),
{
    if text.len() > 0 && text.last() == '/' {
        without_trailing_slashes(text.drop_last())
    } else {
        text
    }
}

/// `head` followed by `tail`.
pub fn join(head: &str, tail: &str) -> (joined: String)
    ensures
        joined@ == head@ + tail@,
{
    let mut joined: String = head.to_owned();
    joined.append(tail);
    joined
}

/// A copy of an optional string.
pub fn copy_text(text: &Option<String>) -> (copy: Option<String>)
    ensures
        text_of(copy) == text_of(*text),
{
    match text {
        Some(text) => Some(text.clone()),
        None => None,
    }
}

/// Calls `str::trim_end_matches('/')`: the text up to its last character that
/// is not `/`.
#[verifier::external_body]
pub(crate) fn trim_end_slashes(text: &str) -> (trimmed: String)
    ensures
        trimmed@ == without_trailing_slashes(text@),
{
    text.trim_end_matches('/').to_string()
}

/// Calls `str::strip_suffix`: what stands before `suffix` where the text ends
/// in it, and nothing where it does not.
#[verifier::external_body]
pub(crate) fn strip_suffix(text: &str, suffix: &str) -> (stem: Option<String>)
    ensures
        match stem {
            Some(stem) => text@ == stem@ + suffix@,
            None => !suffix@.is_suffix_of(text@),
        },
{
    text.strip_suffix(suffix).map(|stem| stem.to_string())
}

} // verus!
