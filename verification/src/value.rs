//! The structured value model used for event payloads, entity metadata and
//! the setting-schema codec.

use vstd::prelude::*;

verus! {

/// A generic structured value: the shape events and schemas are converted
/// to before an external serializer renders them.
///
/// Objects are ordered lists of field-name/value pairs: the declaration
/// order of fields is part of the value.
#[derive(Debug, PartialEq, Eq)]
pub enum JsonValue {
    /// The absent value.
    Null,
    /// A boolean.
    Bool(bool),
    /// An unsigned integer.
    UInt(u64),
    /// A signed integer.
    Int(i64),
    /// A text value.
    Str(String),
    /// An ordered list of values.
    Array(Vec<JsonValue>),
    /// An ordered list of named fields.
    Object(Vec<JsonField>),
}

/// One named field of an object value.
#[derive(Debug, PartialEq, Eq)]
pub struct JsonField {
    /// The field's name.
    pub key: String,
    /// The field's value.
    pub value: JsonValue,
}

/// Whether `v` is an object.
pub open spec fn is_obj(v: JsonValue) -> bool {
    v matches JsonValue::Object(_)
}

/// The fields of an object value (meaningful when `is_obj(v)`).
pub open spec fn obj_fields(v: JsonValue) -> Seq<JsonField> {
    match v {
        JsonValue::Object(fs) => fs@,
        _ => Seq::empty(),
    }
}

/// The elements of an array value (meaningful when `v` is an array).
pub open spec fn arr_elems(v: JsonValue) -> Seq<JsonValue> {
    match v {
        JsonValue::Array(xs) => xs@,
        _ => Seq::empty(),
    }
}

/// Whether `v` is an array.
pub open spec fn is_arr(v: JsonValue) -> bool {
    v matches JsonValue::Array(_)
}

/// Whether `v` is the string `s`.
pub open spec fn is_str(v: JsonValue, s: Seq<char>) -> bool {
    match v {
        JsonValue::Str(t) => t@ == s,
        _ => false,
    }
}

/// Whether field `f` is named `k` and holds the string `s`.
pub open spec fn field_str(f: JsonField, k: Seq<char>, s: Seq<char>) -> bool {
    f.key@ == k && is_str(f.value, s)
}

/// Whether field `f` is named `k` and holds the unsigned integer `n`.
pub open spec fn field_uint(f: JsonField, k: Seq<char>, n: u64) -> bool {
    f.key@ == k && f.value == JsonValue::UInt(n)
}

/// Whether field `f` is named `k` and holds the signed integer `n`.
pub open spec fn field_int(f: JsonField, k: Seq<char>, n: i64) -> bool {
    f.key@ == k && f.value == JsonValue::Int(n)
}

/// Whether field `f` is named `k` and holds the boolean `b`.
pub open spec fn field_bool(f: JsonField, k: Seq<char>, b: bool) -> bool {
    f.key@ == k && f.value == JsonValue::Bool(b)
}

/// Whether field `f` is named `k` and holds the string `s`, or null when
/// `s` is absent.
pub open spec fn field_opt_str(f: JsonField, k: Seq<char>, s: Option<Seq<char>>) -> bool {
    f.key@ == k && (match s {
        Some(t) => is_str(f.value, t),
        None => f.value == JsonValue::Null,
    })
}

/// Whether field `f` is named `k` and holds the unsigned integer `n`, or
/// null when `n` is absent.
pub open spec fn field_opt_uint(f: JsonField, k: Seq<char>, n: Option<u64>) -> bool {
    f.key@ == k && (match n {
        Some(v) => f.value == JsonValue::UInt(v),
        None => f.value == JsonValue::Null,
    })
}

/// Whether field `f` is named `k` and holds an array of exactly the
/// strings `ss`, in order.
pub open spec fn field_str_array(f: JsonField, k: Seq<char>, ss: Seq<Seq<char>>) -> bool {
    f.key@ == k && is_arr(f.value) && arr_elems(f.value).len() == ss.len() && (forall|i: int|
        0 <= i < ss.len() ==> is_str(#[trigger] arr_elems(f.value)[i], ss[i]))
}

/// Whether `v` is an array of exactly the strings `ss`, in order.
pub open spec fn str_array_value(v: JsonValue, ss: Seq<Seq<char>>) -> bool {
    &&& is_arr(v)
    &&& arr_elems(v).len() == ss.len()
    &&& forall|i: int| 0 <= i < ss.len() ==> is_str(#[trigger] arr_elems(v)[i], ss[i])
}

/// Builds an array value of the given strings, in order.
pub fn make_str_array(vals: &Vec<String>) -> (v: JsonValue)
    ensures
        str_array_value(v, vals@.map_values(|s: String| s@)),
{
    let mut elems: Vec<JsonValue> = Vec::new();
    let mut i: usize = 0;
    while i < vals.len()
        invariant
            0 <= i <= vals@.len(),
            elems@.len() == i,
            forall|k: int| 0 <= k < i ==> is_str(#[trigger] elems@[k], vals@[k]@),
        decreases vals@.len() - i,
    {
        elems.push(JsonValue::Str(vals[i].as_str().to_owned()));
        i = i + 1;
    }
    JsonValue::Array(elems)
}

/// Builds a string field.
pub fn make_field_str(key: &str, val: &str) -> (f: JsonField)
    ensures
        field_str(f, key@, val@),
{
    JsonField { key: key.to_owned(), value: JsonValue::Str(val.to_owned()) }
}

/// Builds an unsigned integer field.
pub fn make_field_uint(key: &str, val: u64) -> (f: JsonField)
    ensures
        field_uint(f, key@, val),
{
    JsonField { key: key.to_owned(), value: JsonValue::UInt(val) }
}

/// Builds a signed integer field.
pub fn make_field_int(key: &str, val: i64) -> (f: JsonField)
    ensures
        field_int(f, key@, val),
{
    JsonField { key: key.to_owned(), value: JsonValue::Int(val) }
}

/// Builds a boolean field.
pub fn make_field_bool(key: &str, val: bool) -> (f: JsonField)
    ensures
        field_bool(f, key@, val),
{
    JsonField { key: key.to_owned(), value: JsonValue::Bool(val) }
}

/// Builds a string-or-null field.
pub fn make_field_opt_str(key: &str, val: &Option<String>) -> (f: JsonField)
    ensures
        field_opt_str(
            f,
            key@,
            (match val {
                Some(s) => Some(s@),
                None => None,
            }),
        ),
{
    match val {
        Some(s) => JsonField { key: key.to_owned(), value: JsonValue::Str(s.as_str().to_owned()) },
        None => JsonField { key: key.to_owned(), value: JsonValue::Null },
    }
}

/// Builds an unsigned-integer-or-null field.
pub fn make_field_opt_uint(key: &str, val: &Option<u64>) -> (f: JsonField)
    ensures
        field_opt_uint(f, key@, *val),
{
    match val {
        Some(n) => JsonField { key: key.to_owned(), value: JsonValue::UInt(*n) },
        None => JsonField { key: key.to_owned(), value: JsonValue::Null },
    }
}

/// Builds a field holding an array of the given strings, in order.
pub fn make_field_str_array(key: &str, vals: &Vec<String>) -> (f: JsonField)
    ensures
        field_str_array(f, key@, vals@.map_values(|s: String| s@)),
{
    let mut elems: Vec<JsonValue> = Vec::new();
    let mut i: usize = 0;
    while i < vals.len()
        invariant
            0 <= i <= vals@.len(),
            elems@.len() == i,
            forall|k: int| 0 <= k < i ==> is_str(#[trigger] elems@[k], vals@[k]@),
        decreases vals@.len() - i,
    {
        elems.push(JsonValue::Str(vals[i].as_str().to_owned()));
        i = i + 1;
    }
    JsonField { key: key.to_owned(), value: JsonValue::Array(elems) }
}

} // verus!
