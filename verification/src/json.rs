//! Trusted view of the loosely-typed parameter bags (JSON objects) that
//! engine configurations arrive in. The decoder in `config` only ever asks
//! whether a named field is present as a string, an unsigned integer or a
//! boolean; `json_fields` names exactly that content, and the three
//! accessors below are the only calls into `serde_json`.

use vstd::prelude::*;

verus! {

#[verifier::external_type_specification]
#[verifier::external_body]
pub struct ExValue(serde_json::Value);

/// What one field of a parameter bag holds, as far as the configuration
/// decoder reads it: a string, an unsigned integer that fits in `u64`, a
/// boolean, or something of any other shape.
pub enum JsonField {
    Str(Seq<char>),
    UInt(u64),
    Bool(bool),
    Other,
}

/// The fields of a parameter bag: for each key present in the JSON object,
/// what its value holds. A value that is not an object has no readable
/// fields of interest; the accessors below then report every key absent.
pub uninterp spec fn json_fields(v: serde_json::Value) -> Map<Seq<char>, JsonField>;

/// Relies on `serde_json::Value::get` and `serde_json::Value::as_str`:
/// returns the value of `key` exactly when the bag maps `key` to a string.
#[verifier::external_body]
pub(crate) fn json_field_str(v: &serde_json::Value, key: &str) -> (r: Option<String>)
    ensures
        match r {
            Some(s) => json_fields(*v).contains_key(key@) && json_fields(*v)[key@]
                == JsonField::Str(s@),
            None => !(json_fields(*v).contains_key(key@) && json_fields(*v)[key@] is Str),
        },
{
    match v.get(key) {
        Some(x) => match x.as_str() {
            Some(s) => Some(s.to_owned()),
            None => None,
        },
        None => None,
    }
}

/// Relies on `serde_json::Value::get` and `serde_json::Value::as_u64`:
/// returns the value of `key` exactly when the bag maps `key` to an
/// unsigned integer representable in `u64`.
#[verifier::external_body]
pub(crate) fn json_field_u64(v: &serde_json::Value, key: &str) -> (r: Option<u64>)
    ensures
        match r {
            Some(n) => json_fields(*v).contains_key(key@) && json_fields(*v)[key@]
                == JsonField::UInt(n),
            None => !(json_fields(*v).contains_key(key@) && json_fields(*v)[key@] is UInt),
        },
{
    match v.get(key) {
        Some(x) => x.as_u64(),
        None => None,
    }
}

/// Relies on `serde_json::Value::get` and `serde_json::Value::as_bool`:
/// returns the value of `key` exactly when the bag maps `key` to a boolean.
#[verifier::external_body]
pub(crate) fn json_field_bool(v: &serde_json::Value, key: &str) -> (r: Option<bool>)
    ensures
        match r {
            Some(b) => json_fields(*v).contains_key(key@) && json_fields(*v)[key@]
                == JsonField::Bool(b),
            None => !(json_fields(*v).contains_key(key@) && json_fields(*v)[key@] is Bool),
        },
{
    match v.get(key) {
        Some(x) => x.as_bool(),
        None => None,
    }
}

/// The string field `k` of a parameter bag, when it is present as a string.
pub open spec fn spec_field_str(f: Map<Seq<char>, JsonField>, k: Seq<char>) -> Option<Seq<char>> {
    if f.contains_key(k) && f[k] is Str {
        Some(f[k]->Str_0)
    } else {
        None
    }
}

/// The unsigned integer field `k` of a parameter bag, when it is present.
pub open spec fn spec_field_u64(f: Map<Seq<char>, JsonField>, k: Seq<char>) -> Option<u64> {
    if f.contains_key(k) && f[k] is UInt {
        Some(f[k]->UInt_0)
    } else {
        None
    }
}

/// The boolean field `k` of a parameter bag, when it is present.
pub open spec fn spec_field_bool(f: Map<Seq<char>, JsonField>, k: Seq<char>) -> Option<bool> {
    if f.contains_key(k) && f[k] is Bool {
        Some(f[k]->Bool_0)
    } else {
        None
    }
}

} // verus!
