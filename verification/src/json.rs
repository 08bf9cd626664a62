//! JSON encoding of tag lists, stored as TEXT columns.
use vstd::prelude::*;

verus! {

/// The JSON text that `serde_json::to_string` produces for a list of strings.
pub uninterp spec fn json_text_of_strings(items: Seq<Seq<char>>) -> Seq<char>;

/// The list of strings that `serde_json::from_str` reads from a JSON text,
/// `None` when the text is not a JSON array of strings.
pub uninterp spec fn json_strings_of_text(text: Seq<char>) -> Option<Seq<Seq<char>>>;

/// Calls `serde_json::to_string` on a list of strings. Its documentation
/// names two failure causes (a failing `Serialize` impl, a map with
/// non-string keys), neither possible for a list of strings, so the result
/// is a text; the claim is that reading that text back with
/// `serde_json::from_str` gives the same list.
#[verifier::external_body]
pub(crate) fn tags_to_json(tags: &Vec<String>) -> (r: String)
    ensures
        r@ == json_text_of_strings(tags.deep_view()),
        json_strings_of_text(r@) == Some(tags.deep_view()),
{
    serde_json::to_string(tags).unwrap_or_default()
}

/// Calls `serde_json::from_str::<Vec<String>>`; `None` when parsing fails.
#[verifier::external_body]
pub(crate) fn tags_from_json(text: &str) -> (r: Option<Vec<String>>)
    ensures
        r is Some <==> json_strings_of_text(text@) is Some,
        r matches Some(v) ==> Some(v.deep_view()) == json_strings_of_text(text@),
{
    serde_json::from_str::<Vec<String>>(text).ok()
}

/// Tags stored as JSON text, the empty list when the text does not parse.
pub open spec fn parsed_tags(text: Seq<char>) -> Seq<Seq<char>> {
    match json_strings_of_text(text) {
        Some(v) => v,
        None => seq![],
    }
}

/// Reads a tag list from its stored JSON text; an unreadable text gives no
/// tags.
pub fn parse_tags_text(text: &str) -> (r: Vec<String>)
    ensures
        r.deep_view() == parsed_tags(text@),
{
    match tags_from_json(text) {
        Some(v) => v,
        None => {
            let v: Vec<String> = Vec::new();
            assert(v.deep_view() =~= seq![]);
            v
        },
    }
}

} // verus!
