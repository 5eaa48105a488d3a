//! JSON decoding of plain values, through `serde_json`.
use vstd::prelude::*;

use crate::text::views;

verus! {

/// A name for what `serde_json::from_str::<Vec<String>>` decodes from a text:
/// the strings of a JSON array of strings, or `None` where the text is not one.
pub uninterp spec fn json_string_list(s: Seq<char>) -> Option<Seq<Seq<char>>>;

/// A name for what `serde_json::from_str::<String>` decodes from a text: the
/// value of a JSON string, or `None` where the text is not one.
pub uninterp spec fn json_string(s: Seq<char>) -> Option<Seq<char>>;

/// The views of a decoded list, if any.
pub open spec fn list_view(o: Option<Vec<String>>) -> Option<Seq<Seq<char>>> {
    match o {
        Some(v) => Some(views(v@)),
        None => None,
    }
}

/// The view of a decoded string, if any.
pub open spec fn opt_view(o: Option<String>) -> Option<Seq<char>> {
    match o {
        Some(s) => Some(s@),
        None => None,
    }
}

/// Relies on `serde_json::from_str::<Vec<String>>`: decodes a JSON array of
/// strings; its error becomes `None`.
#[verifier::external_body]
pub(crate) fn decode_string_list(s: &str) -> (r: Option<Vec<String>>)
    ensures
        list_view(r) == json_string_list(s@),
{
    serde_json::from_str::<Vec<String>>(s).ok()
}

/// Relies on `serde_json::from_str::<String>`: decodes a JSON string; its
/// error becomes `None`.
#[verifier::external_body]
pub(crate) fn decode_string(s: &str) -> (r: Option<String>)
    ensures
        opt_view(r) == json_string(s@),
{
    serde_json::from_str::<String>(s).ok()
}

/// A name for what `serde_json` writes for a string value: the text between
/// quotes, with the characters that JSON requires escaped.
pub uninterp spec fn json_quoted(s: Seq<char>) -> Seq<char>;

/// Relies on `serde_json::Value::String` and its `Display`, which writes a
/// string value as JSON text.
#[verifier::external_body]
pub(crate) fn quote_json(s: &str) -> (r: String)
    ensures
        r@ == json_quoted(s@),
{
    serde_json::Value::String(s.to_string()).to_string()
}

} // verus!
