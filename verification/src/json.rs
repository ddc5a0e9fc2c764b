//! Plain-value model of the JSON replies a miner sends back.
//!
//! A reply body either fails to parse, or parses to a JSON document whose
//! top-level object entries are modelled as a sequence of key/value pairs:
//! the value is kept as text when it is a JSON string and recorded as
//! present-but-not-text otherwise (a document that is valid JSON but not an
//! object simply has no entries). That distinction matters: a field that is
//! present with a non-string value suppresses the fallback lookup during
//! normalization, exactly as a missing field does not.

use vstd::prelude::*;

verus! {

/// One top-level entry of a parsed JSON object: its key, and its value's
/// text when the value is a JSON string.
#[derive(Debug)]
pub struct JsonField {
    pub key: String,
    pub text: Option<String>,
}

/// The mathematical model of one entry.
pub open spec fn field_model(f: JsonField) -> (Seq<char>, Option<Seq<char>>) {
    (
        f.key@,
        match f.text {
            Option::Some(t) => Option::Some(t@),
            Option::None => Option::None,
        },
    )
}

/// The mathematical model of a parsed object's entries.
pub open spec fn fields_model(fs: Seq<JsonField>) -> Seq<(Seq<char>, Option<Seq<char>>)> {
    fs.map_values(|f: JsonField| field_model(f))
}

/// What a reply body parses to: `None` when the body is not valid JSON,
/// otherwise the modelled top-level object entries. This is a fixed
/// function of the body text alone.
pub uninterp spec fn json_fields_of(body: Seq<char>) -> Option<Seq<(Seq<char>, Option<Seq<char>>)>>;

/// Relies on serde_json::from_str::<serde_json::Value>: whether a body text
/// is valid JSON, and which string-valued entries its top-level object
/// holds, depend on the body text alone.
#[verifier::external_body]
pub(crate) fn parse_json_fields(body: &str) -> (r: Option<Vec<JsonField>>)
    ensures
        (r is Some) == (json_fields_of(body@) is Some),
        r matches Some(fs) ==> json_fields_of(body@) == Some(fields_model(fs@)),
{
    let value: serde_json::Value = match serde_json::from_str(body) {
        Ok(v) => v,
        Err(_) => return None,
    };
    let mut fields = Vec::new();
    if let serde_json::Value::Object(entries) = value {
        for (key, entry) in entries {
            let text = match entry {
                serde_json::Value::String(s) => Some(s),
                _ => None,
            };
            fields.push(JsonField { key, text });
        }
    }
    Some(fields)
}

} // verus!
