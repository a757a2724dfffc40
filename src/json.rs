//! One level of a parsed JSON document, as plain values.
use serde_json::Value;
use vstd::prelude::*;

verus! {

/// The top level of a JSON document. Each nested value is kept as its own
/// compact JSON text, so that it can be parsed again on demand.
#[derive(Debug, PartialEq, Eq)]
pub enum JsonNode {
    Null,
    Bool(bool),
    /// A number, with its value when it is an integer that fits `i64`, and when
    /// it is one that fits `u64`.
    Number(Option<i64>, Option<u64>),
    Str(String),
    Array(Vec<Vec<u8>>),
    Object(Vec<(String, Vec<u8>)>),
}

/// What `parse_json_node` gives for a text: `None` when the bytes are not one
/// well-formed JSON document.
pub uninterp spec fn json_node_of(text: Seq<u8>) -> Option<JsonNode>;

/// Relies on `serde_json::from_slice::<Value>` to parse the bytes, and on the
/// `Display` impl of `serde_json::Value` to write each nested value back as
/// compact JSON text. The result depends on the bytes alone.
#[verifier::external_body]
pub(crate) fn parse_json_node(text: &[u8]) -> (r: Option<JsonNode>)
    ensures
        r == json_node_of(text@),
{
    match serde_json::from_slice::<Value>(text) {
        Ok(Value::Null) => Some(JsonNode::Null),
        Ok(Value::Bool(b)) => Some(JsonNode::Bool(b)),
        Ok(Value::Number(n)) => Some(JsonNode::Number(n.as_i64(), n.as_u64())),
        Ok(Value::String(s)) => Some(JsonNode::Str(s)),
        Ok(Value::Array(a)) => Some(JsonNode::Array(a.iter().map(|x| x.to_string().into_bytes()).collect())),
        Ok(Value::Object(m)) => Some(JsonNode::Object(m.into_iter().map(|(k, x)| (k, x.to_string().into_bytes())).collect())),
        Err(_) => None,
    }
}

} // verus!
