//! Decoding by target type, and the lookup of one member of an object.

use crate::error::Error;
use crate::json::{
    as_array, as_boolean, as_i64, as_string, find, integer, json_value, json_values, member,
    JsonValue,
};
use rustc_serialize::json::Json;
use vstd::prelude::*;

verus! {

/// A type that can be decoded from a JSON document.
///
/// `decoded` says, over the value of a document, what the document decodes to
/// (as the deep view of the decoded value) or that it does not fit; `from_json`
/// computes exactly that, and fails with [`Error::InvalidResponse`] exactly
/// where the document does not fit.
pub trait FromJson: Sized + DeepView {
    /// What `v` decodes to, `None` where its shape does not fit the type.
    spec fn decoded(v: JsonValue) -> Option<<Self as DeepView>::V>;

    /// Decodes `input`.
    fn from_json(input: &Json) -> (r: Result<Self, Error>)
        ensures
            match r {
                Ok(x) => Self::decoded(json_value(*input)) == Some(x.deep_view()),
                Err(e) => e == Error::InvalidResponse && Self::decoded(json_value(*input)) is None,
            },
    ;
}

impl FromJson for i64 {
    /// A signed number, or an unsigned one below `i64::MAX`.
    open spec fn decoded(v: JsonValue) -> Option<i64> {
        integer(v)
    }

    fn from_json(input: &Json) -> (r: Result<i64, Error>) {
        match as_i64(input) {
            Some(n) => Ok(n),
            None => Err(Error::InvalidResponse),
        }
    }
}

impl FromJson for bool {
    /// A flag.
    open spec fn decoded(v: JsonValue) -> Option<bool> {
        match v {
            JsonValue::Boolean(b) => Some(b),
            _ => None,
        }
    }

    fn from_json(input: &Json) -> (r: Result<bool, Error>) {
        match as_boolean(input) {
            Some(b) => Ok(b),
            None => Err(Error::InvalidResponse),
        }
    }
}

impl FromJson for String {
    /// A text.
    open spec fn decoded(v: JsonValue) -> Option<Seq<char>> {
        match v {
            JsonValue::String(s) => Some(s),
            _ => None,
        }
    }

    fn from_json(input: &Json) -> (r: Result<String, Error>) {
        match as_string(input) {
            Some(s) => Ok(s.to_owned()),
            None => Err(Error::InvalidResponse),
        }
    }
}

impl FromJson for i32 {
    /// A number that fits an `i64`, cut down to its low 32 bits.
    open spec fn decoded(v: JsonValue) -> Option<i32> {
        match integer(v) {
            Some(n) => Some(n as i32),
            None => None,
        }
    }

    fn from_json(input: &Json) -> (r: Result<i32, Error>) {
        match as_i64(input) {
            Some(n) => Ok(#[verifier::truncate] (n as i32)),
            None => Err(Error::InvalidResponse),
        }
    }
}

impl<T: FromJson> FromJson for Vec<T> {
    /// An array all of whose items fit `T`, item by item and in order.
    open spec fn decoded(v: JsonValue) -> Option<Seq<<T as DeepView>::V>> {
        match v {
            JsonValue::Array(items) => if forall|i: int|
                0 <= i < items.len() ==> (#[trigger] T::decoded(items[i])) is Some {
                Some(Seq::new(items.len(), |i: int| T::decoded(items[i])->0))
            } else {
                None
            },
            _ => None,
        }
    }

    fn from_json(input: &Json) -> (r: Result<Vec<T>, Error>) {
        match as_array(input) {
            None => Err(Error::InvalidResponse),
            Some(items) => {
                let ghost values = json_values(items@);
                let mut out: Vec<T> = Vec::new();
                let mut i: usize = 0;
                while i < items.len()
                    invariant
                        i <= items.len(),
                        out.len() == i,
                        values == json_values(items@),
                        json_value(*input) == JsonValue::Array(values),
                        forall|k: int|
                            0 <= k < i ==> (#[trigger] T::decoded(values[k])) == Some(
                                out@[k].deep_view(),
                            ),
                    decreases items.len() - i,
                {
                    match T::from_json(&items[i]) {
                        Ok(x) => {
                            out.push(x);
                        },
                        Err(e) => {
                            assert(T::decoded(values[i as int]) is None);
                            return Err(e);
                        },
                    }
                    i += 1;
                }
                assert(out.deep_view() =~= Self::decoded(json_value(*input))->0);
                Ok(out)
            },
        }
    }
}

impl FromJson for (i32, i32) {
    /// An array of exactly two numbers, each decoded as an `i32`.
    open spec fn decoded(v: JsonValue) -> Option<(i32, i32)> {
        match Vec::<i64>::decoded(v) {
            Some(s) => if s.len() == 2 {
                Some((s[0] as i32, s[1] as i32))
            } else {
                None
            },
            None => None,
        }
    }

    fn from_json(input: &Json) -> (r: Result<(i32, i32), Error>) {
        match Vec::<i64>::from_json(input) {
            Ok(numbers) => {
                if numbers.len() != 2 {
                    return Err(Error::InvalidResponse);
                }
                assert(numbers.deep_view()[0] == numbers[0]);
                assert(numbers.deep_view()[1] == numbers[1]);
                let first = #[verifier::truncate] (numbers[0] as i32);
                let second = #[verifier::truncate] (numbers[1] as i32);
                Ok((first, second))
            },
            Err(e) => Err(e),
        }
    }
}

/// What the member `name` of `v` decodes to as a `T`: `None` where `v` has no
/// such member or the member does not fit `T`.
///
/// The definition is opaque, so that a proof about a record of many members
/// handles each member as one term; `reveal(field_decoded)` opens it.
#[verifier::opaque]
pub open spec fn field_decoded<T: FromJson>(v: JsonValue, name: Seq<char>) -> Option<T::V> {
    match member(v, name) {
        Some(x) => T::decoded(x),
        None => None,
    }
}

/// Decodes the member `name` of `input` as a `T`; fails where the member is
/// absent or does not fit `T`.
pub fn field<T: FromJson>(input: &Json, name: &str) -> (r: Result<T, Error>)
    ensures
        match r {
            Ok(x) => field_decoded::<T>(json_value(*input), name@) == Some(x.deep_view()),
            Err(e) => e == Error::InvalidResponse && field_decoded::<T>(
                json_value(*input),
                name@,
            ) is None,
        },
{
    reveal(field_decoded);
    match find(input, name) {
        Some(x) => T::from_json(x),
        None => Err(Error::InvalidResponse),
    }
}

/// Decodes the member `name` of `input` as a `T`, leniently: a member that is
/// absent and one that does not fit `T` both give `None`.
pub fn optional_field<T: FromJson>(input: &Json, name: &str) -> (r: Option<T>)
    ensures
        r.deep_view() == field_decoded::<T>(json_value(*input), name@),
{
    match field::<T>(input, name) {
        Ok(x) => Some(x),
        Err(_) => None,
    }
}

/// Decodes the member `name` of `input` as a `T`, and gives `default` where
/// the member is absent or does not fit `T`.
pub fn field_or<T: FromJson>(input: &Json, name: &str, default: T) -> (r: T)
    ensures
        r.deep_view() == match field_decoded::<T>(json_value(*input), name@) {
            Some(x) => x,
            None => default.deep_view(),
        },
{
    match field::<T>(input, name) {
        Ok(x) => x,
        Err(_) => default,
    }
}

} // verus!
