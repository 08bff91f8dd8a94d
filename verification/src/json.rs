//! A mathematical model of the JSON documents the client reads, and the
//! trusted boundary to serde_json that the model speaks for. Parsing is
//! deterministic in the input text, so the parse result has a name here,
//! and each accessor's contract says over that name exactly what its
//! source does.

use vstd::prelude::*;

verus! {

/// A parsed JSON document. A number's value is never read by this
/// library, so the `Num` variant does not model it.
#[verifier::ext_equal]
pub enum JsonDoc {
    Null,
    Bool(bool),
    Num,
    Str(Seq<char>),
    Arr(Seq<JsonDoc>),
    Obj(Map<Seq<char>, JsonDoc>),
}

/// The document that `serde_json::from_str::<serde_json::Value>` parses
/// out of the given text: Some exactly on valid JSON text, None
/// otherwise. The parse depends on the text alone.
pub uninterp spec fn spec_json_doc(body: Seq<char>) -> Option<JsonDoc>;

/// The message of the error that `serde_json::from_str` reports for the
/// given text, when the text is not valid JSON. It depends on the text
/// alone.
pub uninterp spec fn spec_json_message(body: Seq<char>) -> Seq<char>;

/// The document held by a parsed `serde_json::Value`, which is opaque to
/// the verifier: its object members, array elements and string text, as
/// the accessors below hand them out.
pub uninterp spec fn spec_value_doc(v: serde_json::Value) -> JsonDoc;

/// Declares serde_json::Value, the parser's document type, which stays
/// opaque: everything known of one is said over `spec_value_doc`.
#[verifier::external_type_specification]
#[verifier::external_body]
pub struct ExValue(serde_json::Value);

/// Relies on serde_json::from_str::<serde_json::Value>: parses JSON text,
/// returning the parsed document exactly when the text is valid JSON, and
/// the parser's error message otherwise.
#[verifier::external_body]
pub(crate) fn json_parse(body: &str) -> (r: Result<serde_json::Value, String>)
    ensures
        r is Ok <==> spec_json_doc(body@) is Some,
        r matches Ok(v) ==> spec_json_doc(body@) == Some(spec_value_doc(v)),
        r matches Err(m) ==> m@ == spec_json_message(body@),
{
    match serde_json::from_str::<serde_json::Value>(body) {
        Ok(v) => Ok(v),
        Err(e) => Err(e.to_string()),
    }
}

/// Relies on serde_json::Value::get with a string key: yields the member
/// under the key exactly when the value is an object that has that key,
/// and None otherwise.
#[verifier::external_body]
pub(crate) fn json_get<'a>(v: &'a serde_json::Value, key: &str) -> (r: Option<
    &'a serde_json::Value,
>)
    ensures
        r is Some <==> (spec_value_doc(*v) matches JsonDoc::Obj(m) && m.dom().contains(key@)),
        r matches Some(w) ==> (spec_value_doc(*v) matches JsonDoc::Obj(m) && m.dom().contains(key@)
            && spec_value_doc(*w) == m[key@]),
{
    v.get(key)
}

/// Relies on serde_json::Value::as_array: yields the element vector
/// exactly when the value is a JSON array, its elements in the array's
/// order.
#[verifier::external_body]
pub(crate) fn json_as_array<'a>(v: &'a serde_json::Value) -> (r: Option<
    &'a Vec<serde_json::Value>,
>)
    ensures
        r is Some <==> spec_value_doc(*v) is Arr,
        r matches Some(a) ==> (spec_value_doc(*v) matches JsonDoc::Arr(elems) && elems
            == a@.map_values(|e: serde_json::Value| spec_value_doc(e))),
{
    v.as_array()
}

/// Relies on serde_json::Value::as_str: yields the text exactly when the
/// value is a JSON string.
#[verifier::external_body]
pub(crate) fn json_as_str<'a>(v: &'a serde_json::Value) -> (r: Option<&'a str>)
    ensures
        r is Some <==> spec_value_doc(*v) is Str,
        r matches Some(s) ==> spec_value_doc(*v) == JsonDoc::Str(s@),
{
    v.as_str()
}

} // verus!
