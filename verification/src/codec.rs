//! The boundary to the document codec. Encoding a request envelope to its
//! text frame and decoding a received text frame are done by `serde_json`;
//! the engine only relies on both being functions of their arguments, and on
//! the decoded field surface that `decoded_frame` names.

use vstd::prelude::*;
use crate::params::{depth_at_most, ParamValue};

verus! {

/// How deep a parameter value may nest for the codec round trip to hold: the
/// document parser refuses nesting past its recursion limit of 128 container
/// levels, and the envelope itself spends two levels around every parameter,
/// so values within this bound stay comfortably inside the parser's budget.
pub const MAX_PARAM_DEPTH: u64 = 100;

/// Every parameter value of the list nests within the codec's bound.
pub open spec fn params_depth_ok(parms: Seq<(&'static str, ParamValue)>) -> bool {
    forall|i: int|
        0 <= i < parms.len() ==> depth_at_most((#[trigger] parms[i]).1, MAX_PARAM_DEPTH as nat)
}

/// The text frame that encodes the request envelope `{id, method, params}`.
/// What the text looks like is `serde_json`'s business; the engine only needs
/// that it is determined by the envelope.
pub uninterp spec fn encoded_request(
    id: i64,
    method: Seq<char>,
    parms: Seq<(Seq<char>, ParamValue)>,
) -> Seq<char>;

/// What decoding a text frame yields, if it decodes at all: the optional
/// integer `id`, the optional `method` string, and whether a `result` and an
/// `error` field are present. Decoding is a function of the text alone.
pub uninterp spec fn decoded_frame(text: Seq<char>) -> Option<
    (Option<i64>, Option<Seq<char>>, bool, bool),
>;

/// The view of a parameter list as the encoder's contract speaks of it.
pub open spec fn parms_view(parms: Seq<(&'static str, ParamValue)>) -> Seq<
    (Seq<char>, ParamValue),
> {
    parms.map_values(|p: (&'static str, ParamValue)| (p.0@, p.1))
}

/// Relies on `serde_json::Value`: an opaque document value, used only to
/// mirror a parameter value on its way into the serializer.
#[verifier::external_type_specification]
#[verifier::external_body]
pub struct ExValue(serde_json::Value);

/// Relies on `serde_json::Value`'s constructors: mirrors one parameter value,
/// variant for variant, as the serializer's input. Called only by
/// `encode_request` below; nothing is claimed of the opaque result.
#[verifier::external_body]
fn param_to_json(p: &ParamValue) -> serde_json::Value {
    match p {
        ParamValue::Null => serde_json::Value::Null,
        ParamValue::Bool(b) => serde_json::Value::Bool(*b),
        ParamValue::Int(i) => serde_json::Value::from(*i),
        ParamValue::Str(s) => serde_json::Value::from(s.as_str()),
        ParamValue::List(v) => serde_json::Value::Array(v.iter().map(param_to_json).collect()),
        ParamValue::Obj(v) => serde_json::Value::Object(
            v.iter().map(|e| (e.0.clone(), param_to_json(&e.1))).collect(),
        ),
    }
}

/// Relies on `serde_json::to_string`: serializes the envelope
/// `{"id": id, "method": method, "params": {..parms..}}` as one text frame.
/// Serializing a document value cannot fail, and the text is a function of
/// the envelope alone. The second clause is the codec round trip that
/// `serde_json`'s serializer and parser guarantee together for documents
/// within the parser's recursion limit: the emitted text parses back, its
/// `id` field is the integer given, its `method` field is the string given,
/// and it has no top-level `result` or `error` field. The serializer has no
/// depth limit of its own, so a deeper envelope is still emitted — it just
/// does not parse back, and nothing is claimed of it.
#[verifier::external_body]
pub(crate) fn encode_request(
    id: i64,
    method: &str,
    parms: &Vec<(&'static str, ParamValue)>,
) -> (r: String)
    ensures
        r@ == encoded_request(id, method@, parms_view(parms@)),
        params_depth_ok(parms@) ==> decoded_frame(r@) == Some(
            (Some(id), Some(method@), false, false),
        ),
{
    let mut map = serde_json::Map::new();
    for p in parms.iter() {
        map.insert(p.0.to_string(), param_to_json(&p.1));
    }
    let mut obj = serde_json::Map::new();
    obj.insert("id".to_string(), serde_json::Value::from(id));
    obj.insert("method".to_string(), serde_json::Value::from(method));
    obj.insert("params".to_string(), serde_json::Value::Object(map));
    serde_json::to_string(&serde_json::Value::Object(obj)).unwrap_or_default()
}

/// Encodes one request envelope as its wire text: the one audited path onto
/// the wire, for this crate's own dispatch and for any driver that writes to
/// a real channel itself. The contract restates what the encoder promises:
/// the text is a function of the envelope, and — for parameters within the
/// codec's nesting bound — it decodes within the same frame model to the id
/// and method it was given.
pub fn encode_envelope(id: i64, method: &str, parms: &Vec<(&'static str, ParamValue)>) -> (r:
    String)
    ensures
        r@ == encoded_request(id, method@, parms_view(parms@)),
        params_depth_ok(parms@) ==> decoded_frame(r@) == Some(
            (Some(id), Some(method@), false, false),
        ),
{
    encode_request(id, method, parms)
}

/// Relies on `serde_json::from_str::<Value>` and the `Value` accessors `get`,
/// `as_i64` and `as_str`: decodes one text frame and reads the four fields the
/// engine looks at. `None` when the text is not a well-formed document; the
/// outcome is a function of the text alone, as `decoded_frame` names it.
#[verifier::external_body]
pub(crate) fn parse_frame(text: &str) -> (r: Option<crate::frame::Frame>)
    ensures
        (r is Some) == (decoded_frame(text@) is Some),
        r is Some ==> crate::frame::frame_decodes(r->0, text@),
{
    let v: serde_json::Value = match serde_json::from_str(text) {
        Ok(v) => v,
        Err(_) => return None,
    };
    Some(crate::frame::Frame {
        text: text.to_string(),
        id: v.get("id").and_then(serde_json::Value::as_i64),
        method: v.get("method").and_then(serde_json::Value::as_str).map(String::from),
        has_result: v.get("result").is_some(),
        has_error: v.get("error").is_some(),
    })
}

} // verus!
