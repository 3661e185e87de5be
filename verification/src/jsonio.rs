//! The JSON tokenizer boundary: thin trusted wrappers over `serde_json`.
//!
//! Parsing a body yields an opaque `serde_json::Value`. Its content is named
//! by the uninterpreted abstraction `json_model`, a ghost document tree, and
//! parsing itself by `spec_parse_json`, a function of the body text alone
//! (`serde_json::from_str` is deterministic). Each wrapper's contract states
//! exactly what its call reveals about those names; every decision about the
//! revealed plain values is made by verified code in `decode`.

use vstd::prelude::*;

verus! {

#[verifier::external_type_specification]
#[verifier::external_body]
pub struct ExValue(serde_json::Value);

/// The ghost model of a JSON document. A number carries its decimal
/// rendering and, when the tokenizer holds it as a machine integer, that
/// integer; an object maps each key to its value.
pub enum JsonV {
    Null,
    Bool(bool),
    Num { text: Seq<char>, int_val: Option<int> },
    Str(Seq<char>),
    Arr(Seq<JsonV>),
    Obj(Map<Seq<char>, JsonV>),
}

/// The content of an opaque parsed value.
pub uninterp spec fn json_model(v: serde_json::Value) -> JsonV;

/// What parsing a body text yields: `None` when the text is not a JSON
/// document, else the document's model.
pub uninterp spec fn spec_parse_json(s: Seq<char>) -> Option<JsonV>;

/// Key lookup on the model: the value under `k`, when the document is an
/// object holding that key.
pub open spec fn get_field(j: JsonV, k: Seq<char>) -> Option<JsonV> {
    match j {
        JsonV::Obj(m) => if m.contains_key(k) {
            Some(m[k])
        } else {
            None
        },
        _ => None,
    }
}

/// The elements of the model, when the document is an array.
pub open spec fn arr_elems(j: JsonV) -> Seq<JsonV> {
    match j {
        JsonV::Arr(es) => es,
        _ => Seq::empty(),
    }
}

/// Relies on `serde_json::from_str::<Value>`: parses a JSON document,
/// returning the parse diagnostic's text on failure.
#[verifier::external_body]
pub(crate) fn parse_json(s: &str) -> (r: Result<serde_json::Value, String>)
    ensures
        r matches Ok(v) ==> spec_parse_json(s@) == Some(json_model(v)),
        r is Err ==> spec_parse_json(s@) is None,
{
    match serde_json::from_str::<serde_json::Value>(s) {
        Ok(v) => Ok(v),
        Err(e) => Err(e.to_string()),
    }
}

/// Relies on `serde_json::Value::get`: looks a key up, `Some` exactly on an
/// object holding the key, and then returns that key's value.
#[verifier::external_body]
pub(crate) fn json_get<'a>(v: &'a serde_json::Value, key: &str) -> (r: Option<
    &'a serde_json::Value,
>)
    ensures
        match r {
            Some(f) => get_field(json_model(*v), key@) == Some(json_model(*f)),
            None => get_field(json_model(*v), key@) is None,
        },
{
    v.get(key)
}

/// Relies on `serde_json::Value::as_str`: `Some` exactly on a string, and
/// then its text.
#[verifier::external_body]
pub(crate) fn json_as_str(v: &serde_json::Value) -> (r: Option<String>)
    ensures
        match r {
            Some(s) => json_model(*v) == JsonV::Str(s@),
            None => !(json_model(*v) is Str),
        },
{
    match v.as_str() {
        Some(s) => Some(s.to_owned()),
        None => None,
    }
}

/// Relies on `serde_json::Value::as_bool`: `Some` exactly on a boolean, and
/// then its value.
#[verifier::external_body]
pub(crate) fn json_as_bool(v: &serde_json::Value) -> (r: Option<bool>)
    ensures
        match r {
            Some(b) => json_model(*v) == JsonV::Bool(b),
            None => !(json_model(*v) is Bool),
        },
{
    v.as_bool()
}

/// Relies on `serde_json::Value::as_i64`: `Some` exactly on a number the
/// tokenizer holds as an integer fitting the machine width, and then that
/// integer.
#[verifier::external_body]
pub(crate) fn json_as_i64(v: &serde_json::Value) -> (r: Option<i64>)
    ensures
        match r {
            Some(n) => json_model(*v) matches JsonV::Num { text, int_val } && int_val == Some(
                n as int,
            ),
            None => !(json_model(*v) matches JsonV::Num { text, int_val } && int_val is Some),
        },
{
    v.as_i64()
}

/// Relies on `serde_json::Value::is_null`.
#[verifier::external_body]
pub(crate) fn json_is_null(v: &serde_json::Value) -> (r: bool)
    ensures
        r == (json_model(*v) is Null),
{
    v.is_null()
}

/// Relies on `serde_json::Value::as_array`: `Some` exactly on an array, and
/// then its elements in order.
#[verifier::external_body]
pub(crate) fn json_as_array<'a>(v: &'a serde_json::Value) -> (r: Option<
    &'a Vec<serde_json::Value>,
>)
    ensures
        match r {
            Some(a) => json_model(*v) matches JsonV::Arr(elems) && a@.len() == elems.len()
                && forall|i: int| 0 <= i < a@.len() ==> json_model(a@[i]) == elems[i],
            None => !(json_model(*v) is Arr),
        },
{
    v.as_array()
}

/// Relies on `serde_json::Number`'s display form: `Some` exactly on a
/// number, and then its decimal rendering, itself a JSON number literal.
#[verifier::external_body]
pub(crate) fn json_number_text(v: &serde_json::Value) -> (r: Option<String>)
    ensures
        match r {
            Some(t) => json_model(*v) matches JsonV::Num { text, int_val } && t@ == text,
            None => !(json_model(*v) is Num),
        },
{
    match v {
        serde_json::Value::Number(n) => Some(n.to_string()),
        _ => None,
    }
}

} // verus!
