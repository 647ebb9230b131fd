//! The JSON documents that are decoded, and what is taken on trust about them.
//!
//! A document is a `rustc_serialize::json::Json`. The verifier does not look
//! inside one: [`json_value`] names the mathematical value that a document
//! holds, and the functions at the end of this file, which call the accessors
//! of `Json`, say over that value what each accessor returns. Their contracts
//! are believed, not proved; everything else in this crate is proved from
//! them.

use rustc_serialize::json::Json;
use vstd::prelude::*;

verus! {

/// Makes `Json` known to the verifier, as a type whose inside it does not see.
#[verifier::external_type_specification]
#[verifier::external_body]
pub struct ExJson(rustc_serialize::json::Json);

/// The value that a JSON document holds, variant for variant as `Json` has it.
///
/// A floating-point number keeps its place but not its digits: nothing here
/// reads them.
pub enum JsonValue {
    /// An integer held as a signed number.
    I64(i64),
    /// An integer held as an unsigned number.
    U64(u64),
    /// A number with a fraction or an exponent.
    F64,
    /// A text.
    String(Seq<char>),
    /// A flag.
    Boolean(bool),
    /// The values of the items, in order.
    Array(Seq<JsonValue>),
    /// The values of the members, by key. A document has finitely many
    /// members, so that the map of the value of a document is finite.
    Object(Map<Seq<char>, JsonValue>),
    /// The document `null`.
    Null,
}

/// The value that the document `j` holds.
pub uninterp spec fn json_value(j: Json) -> JsonValue;

/// The member `key` of `v`: present where `v` is an object, of finitely many
/// members, that has it.
pub open spec fn member(v: JsonValue, key: Seq<char>) -> Option<JsonValue> {
    match v {
        JsonValue::Object(m) => if m.dom().finite() && m.contains_key(key) {
            Some(m[key])
        } else {
            None
        },
        _ => None,
    }
}

/// The integer that `v` gives as an `i64`: a signed number as it is, an
/// unsigned one where it is below `i64::MAX`.
pub open spec fn integer(v: JsonValue) -> Option<i64> {
    match v {
        JsonValue::I64(n) => Some(n),
        JsonValue::U64(n) => if n < i64::MAX {
            Some(n as i64)
        } else {
            None
        },
        _ => None,
    }
}

/// The values of the documents in `items`, in order.
pub open spec fn json_values(items: Seq<Json>) -> Seq<JsonValue> {
    Seq::new(items.len(), |i: int| json_value(items[i]))
}

/// Calls `Json::is_object`. Taken on trust: the result is `true` for an
/// `Object` and `false` for every other document.
#[verifier::external_body]
pub(crate) fn is_object(j: &Json) -> (r: bool)
    ensures
        r == (json_value(*j) is Object),
{
    j.is_object()
}

/// Calls `Json::find`. Taken on trust: for an `Object` that has a member under
/// `key` the result is that member, and it is `None` for an `Object` without
/// such a member and for every document that is no `Object`; the members of a
/// document are finitely many.
#[verifier::external_body]
pub(crate) fn find<'a>(j: &'a Json, key: &str) -> (r: Option<&'a Json>)
    ensures
        match r {
            Some(x) => member(json_value(*j), key@) == Some(json_value(*x)),
            None => member(json_value(*j), key@) is None,
        },
{
    j.find(key)
}

/// Calls `Json::as_i64`. Taken on trust: the result is the number of an `I64`,
/// the number of a `U64` that is less than `i64::MAX`, and `None` for a `U64`
/// from `i64::MAX` on and for every other document.
#[verifier::external_body]
pub(crate) fn as_i64(j: &Json) -> (r: Option<i64>)
    ensures
        r == integer(json_value(*j)),
{
    j.as_i64()
}

/// Calls `Json::as_boolean`. Taken on trust: the result is the flag of a
/// `Boolean`, and `None` for every other document.
#[verifier::external_body]
pub(crate) fn as_boolean(j: &Json) -> (r: Option<bool>)
    ensures
        match r {
            Some(b) => json_value(*j) == JsonValue::Boolean(b),
            None => !(json_value(*j) is Boolean),
        },
{
    j.as_boolean()
}

/// Calls `Json::as_string`. Taken on trust: the result is the text of a
/// `String`, and `None` for every other document.
#[verifier::external_body]
pub(crate) fn as_string<'a>(j: &'a Json) -> (r: Option<&'a str>)
    ensures
        match r {
            Some(s) => json_value(*j) == JsonValue::String(s@),
            None => !(json_value(*j) is String),
        },
{
    j.as_string()
}

/// Calls `Json::as_array`. Taken on trust: the result is the vector of the
/// items of an `Array`, in their order, and `None` for every other document.
#[verifier::external_body]
pub(crate) fn as_array<'a>(j: &'a Json) -> (r: Option<&'a Vec<Json>>)
    ensures
        match r {
            Some(items) => json_value(*j) == JsonValue::Array(json_values(items@)),
            None => !(json_value(*j) is Array),
        },
{
    j.as_array()
}

} // verus!
