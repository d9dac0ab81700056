use vstd::prelude::*;

verus! {

/// JSON trees are carried through the library unopened: request bodies,
/// upstream replies and stored completions.
#[verifier::external_type_specification]
#[verifier::external_body]
pub struct ExJsonValue(serde_json::Value);

/// Whether serde_json reads the bytes as one JSON document.
pub uninterp spec fn is_json_document(b: Seq<u8>) -> bool;

/// Relies on serde_json::from_slice: whether it accepts the bytes depends on them alone.
#[verifier::external_body]
pub(crate) fn parse_json(bytes: &[u8]) -> (r: Option<serde_json::Value>)
    ensures
        r is Some <==> is_json_document(bytes@),
{
    serde_json::from_slice(bytes).ok()
}

/// Whether the JSON document `doc` holds a value at the JSON Pointer `pointer`.
pub uninterp spec fn json_present_at(doc: Seq<u8>, pointer: Seq<char>) -> bool;

/// The JSON string at the JSON Pointer `pointer` of the document `doc`, if
/// the document parses and a string stands there.
pub uninterp spec fn json_text_at(doc: Seq<u8>, pointer: Seq<char>) -> Option<Seq<char>>;

/// The number at the JSON Pointer `pointer` of the document `doc`, if the
/// document parses and an unsigned 64-bit integer stands there.
pub uninterp spec fn json_count_at(doc: Seq<u8>, pointer: Seq<char>) -> Option<u64>;

/// Relies on serde_json::from_slice and `Value::pointer`: the value found at
/// a JSON Pointer depends on the bytes and the pointer alone.
#[verifier::external_body]
pub(crate) fn json_value_at(doc: &[u8], pointer: &str) -> (r: Option<serde_json::Value>)
    ensures
        r is Some <==> json_present_at(doc@, pointer@),
{
    let v: serde_json::Value = serde_json::from_slice(doc).ok()?;
    v.pointer(pointer).cloned()
}

/// Relies on serde_json::from_slice, `Value::pointer` and `Value::as_str`:
/// the text found at a JSON Pointer.
#[verifier::external_body]
pub(crate) fn json_text_at_pointer(doc: &[u8], pointer: &str) -> (r: Option<String>)
    ensures
        match r {
            Some(s) => json_text_at(doc@, pointer@) == Some(s@),
            None => json_text_at(doc@, pointer@) is None,
        },
{
    let v: serde_json::Value = serde_json::from_slice(doc).ok()?;
    v.pointer(pointer).and_then(serde_json::Value::as_str).map(str::to_string)
}

/// Relies on serde_json::from_slice, `Value::pointer` and `Value::as_u64`:
/// the unsigned integer found at a JSON Pointer.
#[verifier::external_body]
pub(crate) fn json_count_at_pointer(doc: &[u8], pointer: &str) -> (r: Option<u64>)
    ensures
        r == json_count_at(doc@, pointer@),
{
    let v: serde_json::Value = serde_json::from_slice(doc).ok()?;
    v.pointer(pointer).and_then(serde_json::Value::as_u64)
}

/// A string read at a pointer, or the empty string where none stands there.
pub open spec fn text_or_empty(t: Option<Seq<char>>) -> Seq<char> {
    match t {
        Some(s) => s,
        None => Seq::empty(),
    }
}

/// Reads the string at `pointer`, the empty string where there is none.
pub fn text_at_or_empty(doc: &[u8], pointer: &str) -> (r: String)
    ensures
        r@ == text_or_empty(json_text_at(doc@, pointer@)),
{
    match json_text_at_pointer(doc, pointer) {
        Some(t) => t,
        None => String::new(),
    }
}

} // verus!
