use vstd::prelude::*;

verus! {

/// A parsed JSON document, carried through unread.
#[verifier::external_type_specification]
#[verifier::external_body]
pub struct ExJsonValue(serde_json::Value);

/// The document `serde_json` parses from `text`, if any.
pub uninterp spec fn json_parse(text: Seq<char>) -> Option<serde_json::Value>;

/// Whether `serde_json` parses `text` as a JSON document.
pub open spec fn json_text_parses(text: Seq<char>) -> bool {
    json_parse(text) is Some
}

/// Calls `serde_json::from_str::<serde_json::Value>` on `text`. Claimed: the
/// parse is a function of the text alone, so the same text always yields the
/// same document (or the same failure), named `json_parse(text@)`.
#[verifier::external_body]
fn parse_json(text: &str) -> (res: Option<serde_json::Value>)
    ensures
        res == json_parse(text@),
{
    serde_json::from_str::<serde_json::Value>(text).ok()
}

/// A list-valued column (key topics, highlights) of a sentiment record.
pub enum ListColumn {
    /// The column's text parsed as this JSON document.
    Decoded(serde_json::Value),
    /// The column's text is no JSON; it is rendered as an empty list.
    Unreadable,
}

/// The column for a parse result: the document when there is one.
pub fn list_column_from(parsed: Option<serde_json::Value>) -> (res: ListColumn)
    ensures
        parsed matches Some(v) ==> res == ListColumn::Decoded(v),
        parsed is None ==> res is Unreadable,
{
    match parsed {
        Some(v) => ListColumn::Decoded(v),
        None => ListColumn::Unreadable,
    }
}

/// Decodes a list-valued column from its stored text.
pub fn decode_list_column(text: &str) -> (res: ListColumn)
    ensures
        res is Decoded <==> json_text_parses(text@),
        json_parse(text@) matches Some(v) ==> res == ListColumn::Decoded(v),
        json_parse(text@) is None ==> res is Unreadable,
{
    list_column_from(parse_json(text))
}

} // verus!
