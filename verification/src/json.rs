use vstd::prelude::*;

use crate::snapshot::keys_unique;
use crate::snapshot::map_of;

verus! {

/// The JSON document that serde_json produces for an identifier-to-status
/// map: an object with one string member per entry. The backing object is
/// ordered by key, so the document is a function of the map contents alone.
pub uninterp spec fn json_of(entries: Map<Seq<char>, Seq<char>>) -> Seq<char>;

/// What parsing a text as an identifier-to-status object yields: the entries
/// map, or `None` where the text is not such a document. A function of the
/// text alone, since serde_json's parse is deterministic.
pub uninterp spec fn parsed_entries(text: Seq<char>) -> Option<Map<Seq<char>, Seq<char>>>;

/// Relies on serde_json::Value::to_string: serializing a string-to-string
/// object, deterministically in the contents of the map.
#[verifier::external_body]
pub(crate) fn entries_to_json(entries: &Vec<(String, String)>) -> (r: String)
    requires
        keys_unique(entries@),
    ensures
        r@ == json_of(map_of(entries@)),
{
    let object: serde_json::Map<String, serde_json::Value> = entries
        .iter()
        .map(|(key, status)| (key.clone(), serde_json::Value::String(status.clone())))
        .collect();
    serde_json::Value::Object(object).to_string()
}

/// Relies on serde_json::from_str: parsing a JSON object with string values
/// into a map, deterministically in the text, so the parsed entry list never
/// repeats an identifier, and parsing a document that serde_json serialized
/// from a map yields exactly that map back.
#[verifier::external_body]
pub(crate) fn json_to_entries(text: &str) -> (r: Option<Vec<(String, String)>>)
    ensures
        r is Some <==> parsed_entries(text@) is Some,
        r is Some ==> keys_unique(r->0@) && parsed_entries(text@) == Some(map_of(r->0@)),
        forall|m: Map<Seq<char>, Seq<char>>|
            m.dom().finite() && text@ == #[trigger] json_of(m) ==> r is Some && map_of(r->0@) == m,
{
    let object: serde_json::Map<String, serde_json::Value> = serde_json::from_str(text).ok()?;
    let mut entries = Vec::new();
    for (key, value) in object {
        match value {
            serde_json::Value::String(status) => entries.push((key, status)),
            _ => return None,
        }
    }
    Some(entries)
}

} // verus!
