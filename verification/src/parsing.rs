use crate::value::{JsonValue, Jv};
use vstd::prelude::*;

verus! {

#[verifier::external_type_specification]
#[verifier::external_body]
pub struct ExValue(serde_json::Value);

/// Shape that the structured-text parser assigns to a text: `None` where the
/// text is not well-formed, otherwise the parsed document's shape.
pub uninterp spec fn spec_parse_doc(s: Seq<char>) -> Option<Jv>;

pub open spec fn opt_value_view(r: Option<JsonValue>) -> Option<Jv> {
    match r {
        Some(v) => Some(v@),
        None => None,
    }
}

/// Relies on serde_json::from_str::<serde_json::Value>: whether a text
/// parses, and what it parses to, depend on the text alone.
#[verifier::external_body]
pub(crate) fn parse_json_text(s: &str) -> (r: Option<JsonValue>)
    ensures
        opt_value_view(r) == spec_parse_doc(s@),
{
    match serde_json::from_str::<serde_json::Value>(s) {
        Ok(v) => Some(convert_value(v)),
        Err(_) => None,
    }
}

/// Relies on serde_json::Value: one arm per variant, moving the parsed
/// payload into the library's own value type.  A number in signed 64-bit
/// range comes out of Number::as_i64; every other number keeps the decimal
/// text of Number's Display form.
#[verifier::external_body]
fn convert_value(v: serde_json::Value) -> JsonValue {
    match v {
        serde_json::Value::Null => JsonValue::Null,
        serde_json::Value::Bool(b) => JsonValue::Bool(b),
        serde_json::Value::Number(n) => match n.as_i64() {
            Some(i) => JsonValue::Int(i),
            None => JsonValue::Float(n.to_string()),
        },
        serde_json::Value::String(s) => JsonValue::Text(s),
        serde_json::Value::Array(a) => JsonValue::Sequence(
            a.into_iter().map(convert_value).collect(),
        ),
        serde_json::Value::Object(m) => JsonValue::Mapping(
            m.into_iter().map(|(k, x)| (k, convert_value(x))).collect(),
        ),
    }
}

/// Characters of a byte string decoded as UTF-8: `None` where the bytes are
/// not valid UTF-8.
pub uninterp spec fn utf8_decode(b: Seq<u8>) -> Option<Seq<char>>;

/// Relies on core::str::from_utf8: it returns Ok exactly on valid UTF-8
/// input, and the decoding depends on the bytes alone.
#[verifier::external_body]
pub(crate) fn decode_utf8(data: &[u8]) -> (r: Option<&str>)
    ensures
        match r {
            Some(t) => utf8_decode(data@) == Some(t@),
            None => utf8_decode(data@) is None,
        },
{
    core::str::from_utf8(data).ok()
}

} // verus!
