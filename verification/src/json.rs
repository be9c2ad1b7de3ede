//! A JSON document as a tree of plain values, and typed accessors into it.
//!
//! Parsing raw text into the tree is entrusted to `serde_json`; everything
//! that reads the tree — field lookup, the typed, range-checked accessors the
//! schemas are decoded with — is verified.

use vstd::prelude::*;
use vstd::string::*;
use crate::util::lookup_pairs;
use crate::util::lemma_lookup_pairs_skip;
use crate::util::field_err;

verus! {

/// A parsed JSON value, held entirely as plain values.
///
/// A number is kept as `UInt` when it is an integer fitting `u64`, as `Int`
/// when it is an integer fitting only `i64` (so always negative), and as
/// `NonIntegral` otherwise; the schemas decoded here have no use for a
/// non-integral number beyond rejecting it.
pub enum JsonValue {
    Null,
    Bool(bool),
    UInt(u64),
    Int(i64),
    NonIntegral,
    Str(String),
    Arr(Vec<JsonValue>),
    Obj(Vec<(String, JsonValue)>),
}

/// What `serde_json` parses a given text to: the tree when the text is
/// well-formed JSON, nothing otherwise.
pub uninterp spec fn json_of(s: Seq<char>) -> Option<JsonValue>;

/// The field of an object under `key`, if the value is an object that
/// carries it.
pub open spec fn jget(v: JsonValue, key: Seq<char>) -> Option<JsonValue> {
    match v {
        JsonValue::Obj(fields) => lookup_pairs(fields@, key),
        _ => None,
    }
}

/// A string field.
pub open spec fn jstr(v: JsonValue, key: Seq<char>) -> Option<String> {
    match jget(v, key) {
        Some(JsonValue::Str(s)) => Some(s),
        _ => None,
    }
}

/// An unsigned 64-bit field.
pub open spec fn ju64(v: JsonValue, key: Seq<char>) -> Option<u64> {
    match jget(v, key) {
        Some(JsonValue::UInt(u)) => Some(u),
        _ => None,
    }
}

/// An unsigned field within `usize` range.
pub open spec fn jusize(v: JsonValue, key: Seq<char>) -> Option<usize> {
    match jget(v, key) {
        Some(JsonValue::UInt(u)) => if u <= usize::MAX as u64 {
            Some(u as usize)
        } else {
            None
        },
        _ => None,
    }
}

/// An unsigned 16-bit field: an out-of-range value is rejected, never
/// truncated.
pub open spec fn ju16(v: JsonValue, key: Seq<char>) -> Option<u16> {
    match jget(v, key) {
        Some(JsonValue::UInt(u)) => if u <= u16::MAX as u64 {
            Some(u as u16)
        } else {
            None
        },
        _ => None,
    }
}

/// An unsigned 8-bit field: an out-of-range value is rejected, never
/// truncated.
pub open spec fn ju8(v: JsonValue, key: Seq<char>) -> Option<u8> {
    match jget(v, key) {
        Some(JsonValue::UInt(u)) => if u <= u8::MAX as u64 {
            Some(u as u8)
        } else {
            None
        },
        _ => None,
    }
}

/// A signed 32-bit field.
pub open spec fn ji32(v: JsonValue, key: Seq<char>) -> Option<i32> {
    match jget(v, key) {
        Some(JsonValue::UInt(u)) => if u <= i32::MAX as u64 {
            Some(u as i32)
        } else {
            None
        },
        Some(JsonValue::Int(i)) => if i32::MIN as i64 <= i && i <= i32::MAX as i64 {
            Some(i as i32)
        } else {
            None
        },
        _ => None,
    }
}

/// A boolean field.
pub open spec fn jbool(v: JsonValue, key: Seq<char>) -> Option<bool> {
    match jget(v, key) {
        Some(JsonValue::Bool(b)) => Some(b),
        _ => None,
    }
}

/// A nullable string field: explicit `null` reads as the absent state, a
/// string as the present one, anything else (the field missing included) is
/// rejected.
pub open spec fn jnullstr(v: JsonValue, key: Seq<char>) -> Option<Option<String>> {
    match jget(v, key) {
        Some(JsonValue::Null) => Some(None),
        Some(JsonValue::Str(s)) => Some(Some(s)),
        _ => None,
    }
}

/// An array field.
pub open spec fn jarr(v: JsonValue, key: Seq<char>) -> Option<Seq<JsonValue>> {
    match jget(v, key) {
        Some(JsonValue::Arr(a)) => Some(a@),
        _ => None,
    }
}

#[verifier::external_type_specification]
#[verifier::external_body]
pub struct ExSerdeJsonValue(serde_json::Value);

/// Relies on `serde_json::Value`'s accessors only: mirrors an already parsed
/// tree into the library's `JsonValue`, one arm per variant, moving each
/// payload across. An integral number is kept at its value, any other
/// number as `NonIntegral`.
#[verifier::external_body]
fn json_tree_of(v: &serde_json::Value) -> JsonValue {
    match v {
        serde_json::Value::Null => JsonValue::Null,
        serde_json::Value::Bool(b) => JsonValue::Bool(*b),
        serde_json::Value::Number(n) => match (n.as_u64(), n.as_i64()) {
            (Some(u), _) => JsonValue::UInt(u),
            (None, Some(i)) => JsonValue::Int(i),
            (None, None) => JsonValue::NonIntegral,
        },
        serde_json::Value::String(s) => JsonValue::Str(s.clone()),
        serde_json::Value::Array(a) => JsonValue::Arr(a.iter().map(json_tree_of).collect()),
        serde_json::Value::Object(m) => JsonValue::Obj(
            m.iter().map(|(k, x)| (k.clone(), json_tree_of(x))).collect(),
        ),
    }
}

/// Relies on `serde_json::from_str::<serde_json::Value>`: whether a text
/// parses, and what tree it parses to, depend on the text alone.
#[verifier::external_body]
pub(crate) fn parse_json(text: &str) -> (r: Result<JsonValue, String>)
    ensures
        r matches Ok(v) ==> json_of(text@) == Some(v),
        r is Err ==> json_of(text@) is None,
{
    match serde_json::from_str::<serde_json::Value>(text) {
        Ok(v) => Ok(json_tree_of(&v)),
        Err(e) => Err(e.to_string()),
    }
}

/// The field of an object under `key`, if the value is an object that
/// carries it.
pub fn jv_get<'a>(v: &'a JsonValue, key: &str) -> (r: Option<&'a JsonValue>)
    ensures
        match r {
            Some(f) => jget(*v, key@) == Some(*f),
            None => jget(*v, key@) is None,
        },
{
    match v {
        JsonValue::Obj(fields) => {
            let n = fields.len();
            let mut i: usize = 0;
            while i < n
                invariant
                    n == fields.len(),
                    i <= n,
                    jget(*v, key@) == lookup_pairs(fields@, key@),
                    forall|j: int| 0 <= j < i ==> fields@[j].0@ != key@,
                decreases n - i,
            {
                if fields[i].0.as_str().eq(key) {
                    proof {
                        lemma_lookup_pairs_skip(fields@, key@, i as int);
                        assert(fields@.skip(i as int).len() > 0);
                        assert(fields@.skip(i as int)[0] == fields@[i as int]);
                        assert(lookup_pairs(fields@.skip(i as int), key@) == Some(
                            fields@[i as int].1,
                        ));
                        assert(jget(*v, key@) == lookup_pairs(fields@, key@));
                    }
                    return Some(&fields[i].1);
                }
                i += 1;
            }
            proof {
                lemma_lookup_pairs_skip(fields@, key@, n as int);
            }
            None
        },
        _ => None,
    }
}

/// A field that must be present, whatever its shape; the nested accessors
/// then hold it to the schema.
pub fn jv_field<'a>(v: &'a JsonValue, key: &str) -> (r: Result<&'a JsonValue, String>)
    ensures
        r is Ok <==> jget(*v, key@) is Some,
        r matches Ok(f) ==> jget(*v, key@) == Some(*f),
{
    match jv_get(v, key) {
        Some(f) => Ok(f),
        None => Err(field_err(key)),
    }
}

/// A string field, as the schema's type demands.
pub fn jv_str(v: &JsonValue, key: &str) -> (r: Result<String, String>)
    ensures
        r is Ok <==> jstr(*v, key@) is Some,
        r matches Ok(s) ==> jstr(*v, key@) == Some(s),
{
    match jv_get(v, key) {
        Some(JsonValue::Str(s)) => Ok(s.clone()),
        _ => Err(field_err(key)),
    }
}

/// An unsigned 64-bit field.
pub fn jv_u64(v: &JsonValue, key: &str) -> (r: Result<u64, String>)
    ensures
        r is Ok <==> ju64(*v, key@) is Some,
        r matches Ok(u) ==> ju64(*v, key@) == Some(u),
{
    match jv_get(v, key) {
        Some(JsonValue::UInt(u)) => Ok(*u),
        _ => Err(field_err(key)),
    }
}

/// An unsigned field within `usize` range; a wider value is a failure, not
/// a truncation.
pub fn jv_usize(v: &JsonValue, key: &str) -> (r: Result<usize, String>)
    ensures
        r is Ok <==> jusize(*v, key@) is Some,
        r matches Ok(u) ==> jusize(*v, key@) == Some(u),
{
    match jv_get(v, key) {
        Some(JsonValue::UInt(u)) => {
            if *u <= usize::MAX as u64 {
                Ok(*u as usize)
            } else {
                Err(field_err(key))
            }
        },
        _ => Err(field_err(key)),
    }
}

/// An unsigned 16-bit field; a wider value is a failure, not a truncation.
pub fn jv_u16(v: &JsonValue, key: &str) -> (r: Result<u16, String>)
    ensures
        r is Ok <==> ju16(*v, key@) is Some,
        r matches Ok(u) ==> ju16(*v, key@) == Some(u),
{
    match jv_get(v, key) {
        Some(JsonValue::UInt(u)) => {
            if *u <= u16::MAX as u64 {
                Ok(*u as u16)
            } else {
                Err(field_err(key))
            }
        },
        _ => Err(field_err(key)),
    }
}

/// An unsigned 8-bit field; a wider value is a failure, not a truncation.
pub fn jv_u8(v: &JsonValue, key: &str) -> (r: Result<u8, String>)
    ensures
        r is Ok <==> ju8(*v, key@) is Some,
        r matches Ok(u) ==> ju8(*v, key@) == Some(u),
{
    match jv_get(v, key) {
        Some(JsonValue::UInt(u)) => {
            if *u <= u8::MAX as u64 {
                Ok(*u as u8)
            } else {
                Err(field_err(key))
            }
        },
        _ => Err(field_err(key)),
    }
}

/// A signed 32-bit field.
pub fn jv_i32(v: &JsonValue, key: &str) -> (r: Result<i32, String>)
    ensures
        r is Ok <==> ji32(*v, key@) is Some,
        r matches Ok(u) ==> ji32(*v, key@) == Some(u),
{
    match jv_get(v, key) {
        Some(JsonValue::UInt(u)) => {
            if *u <= i32::MAX as u64 {
                Ok(*u as i32)
            } else {
                Err(field_err(key))
            }
        },
        Some(JsonValue::Int(i)) => {
            if i32::MIN as i64 <= *i && *i <= i32::MAX as i64 {
                Ok(*i as i32)
            } else {
                Err(field_err(key))
            }
        },
        _ => Err(field_err(key)),
    }
}

/// A boolean field.
pub fn jv_bool(v: &JsonValue, key: &str) -> (r: Result<bool, String>)
    ensures
        r is Ok <==> jbool(*v, key@) is Some,
        r matches Ok(b) ==> jbool(*v, key@) == Some(b),
{
    match jv_get(v, key) {
        Some(JsonValue::Bool(b)) => Ok(*b),
        _ => Err(field_err(key)),
    }
}

/// A nullable string field: `null` decodes to the explicit absent state.
pub fn jv_opt_str(v: &JsonValue, key: &str) -> (r: Result<Option<String>, String>)
    ensures
        r is Ok <==> jnullstr(*v, key@) is Some,
        r matches Ok(s) ==> jnullstr(*v, key@) == Some(s),
{
    match jv_get(v, key) {
        Some(JsonValue::Null) => Ok(None),
        Some(JsonValue::Str(s)) => Ok(Some(s.clone())),
        _ => Err(field_err(key)),
    }
}

/// An array field.
pub fn jv_arr<'a>(v: &'a JsonValue, key: &str) -> (r: Result<&'a Vec<JsonValue>, String>)
    ensures
        r is Ok <==> jarr(*v, key@) is Some,
        r matches Ok(a) ==> jarr(*v, key@) == Some(a@),
{
    match jv_get(v, key) {
        Some(JsonValue::Arr(a)) => Ok(a),
        _ => Err(field_err(key)),
    }
}

} // verus!
