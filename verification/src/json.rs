//! The list's form on disk: a JSON array of strings, written and read by
//! `serde_json`.
//!
//! Nothing in this module is proved. The two functions hand their argument to
//! `serde_json` and return what it gives back; the two spec functions give
//! those answers a name, so that the contracts of the store can speak of them.

use vstd::prelude::*;

verus! {

/// `serde_json::Error`, carried through as an opaque value.
#[verifier::external_type_specification]
#[verifier::external_body]
pub struct ExJsonError(serde_json::Error);

/// The text that `serde_json::to_string` gives for a list of strings, and
/// `None` where it reports an error. Nothing more is claimed of it.
pub uninterp spec fn json_text(paths: Seq<Seq<char>>) -> Option<Seq<char>>;

/// The list of strings that `serde_json::from_str` reads from a text, and
/// `None` where it reports an error. Nothing more is claimed of it.
pub uninterp spec fn json_paths(text: Seq<char>) -> Option<Seq<Seq<char>>>;

/// `serde_json::to_string` on a list of strings.
///
/// Trusted: the answer depends on the strings in the list alone, so it is
/// `json_text` of them.
#[verifier::external_body]
pub(crate) fn encode(paths: &Vec<String>) -> (encoded: Result<String, serde_json::Error>)
    ensures
        match encoded {
            Ok(text) => json_text(paths.deep_view()) == Some(text@),
            Err(_) => json_text(paths.deep_view()).is_none(),
        },
{
    serde_json::to_string(paths)
}

/// `serde_json::from_str`, asked for a list of strings.
///
/// Trusted: the answer depends on the characters of the text alone, so it is
/// `json_paths` of them.
#[verifier::external_body]
pub(crate) fn decode(text: &str) -> (decoded: Result<Vec<String>, serde_json::Error>)
    ensures
        match decoded {
            Ok(paths) => json_paths(text@) == Some(paths.deep_view()),
            Err(_) => json_paths(text@).is_none(),
        },
{
    serde_json::from_str(text)
}

} // verus!
