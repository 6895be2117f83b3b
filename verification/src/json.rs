//! A plain model of a parsed JSON document, and the trusted bridge that
//! obtains one from `serde_json`.
//!
//! The remote service answers with JSON whose shape has drifted over time, so
//! every response is read into the permissive [`Json`] tree first; the typed
//! readers in this module then extract fields with the defensive defaults the
//! adapter guarantees (missing counter: zero, missing flag: false).
use vstd::prelude::*;

verus! {

/// A JSON document as plain data. Numbers are split by representability:
/// `U64` for integers that fit `u64`, `I64` for the remaining integers that
/// fit `i64`, and `Other` for any number this adapter has no use for
/// (fractional or out of range).
pub enum Json {
    Null,
    Bool(bool),
    U64(u64),
    I64(i64),
    Text(String),
    Arr(Vec<Json>),
    Obj(Vec<(String, Json)>),
    Other,
}

/// The field list of an object; empty for any other document.
pub open spec fn obj_entries(j: Json) -> Seq<(String, Json)> {
    match j {
        Json::Obj(entries) => entries@,
        _ => Seq::empty(),
    }
}

/// The first value bound to `key` in an association list.
pub open spec fn lookup(entries: Seq<(String, Json)>, key: Seq<char>) -> Option<Json>
    decreases entries.len(),
{
    if entries.len() == 0 {
        None
    } else if entries[0].0@ == key {
        Some(entries[0].1)
    } else {
        lookup(entries.drop_first(), key)
    }
}

/// The value of field `key` of `j`, if `j` is an object that has it.
pub open spec fn jget(j: Json, key: Seq<char>) -> Option<Json> {
    lookup(obj_entries(j), key)
}

/// An unsigned counter field: the value when present as a `u64`, else zero.
pub open spec fn jget_u64(j: Json, key: Seq<char>) -> u64 {
    match jget(j, key) {
        Some(Json::U64(n)) => n,
        _ => 0,
    }
}

/// A `u32` counter field: the value when present and in range, else zero.
pub open spec fn jget_u32(j: Json, key: Seq<char>) -> u32 {
    match jget(j, key) {
        Some(Json::U64(n)) => if n <= u32::MAX as u64 {
            n as u32
        } else {
            0
        },
        _ => 0,
    }
}

/// An `i32` counter field that the remote may report negative: the value
/// when present and in range, else zero.
pub open spec fn jget_i32(j: Json, key: Seq<char>) -> i32 {
    match jget(j, key) {
        Some(Json::U64(n)) => if n <= i32::MAX as u64 {
            n as i32
        } else {
            0
        },
        Some(Json::I64(n)) => if i32::MIN as i64 <= n && n <= i32::MAX as i64 {
            n as i32
        } else {
            0
        },
        _ => 0,
    }
}

/// A boolean field: the value when present as a boolean, else false.
pub open spec fn jget_bool(j: Json, key: Seq<char>) -> bool {
    match jget(j, key) {
        Some(Json::Bool(b)) => b,
        _ => false,
    }
}

/// A required string field: the text when present as a string, else empty.
pub open spec fn jget_string(j: Json, key: Seq<char>) -> Seq<char> {
    match jget(j, key) {
        Some(Json::Text(s)) => s@,
        _ => Seq::empty(),
    }
}

/// An optional string field: present exactly when the field is a string.
pub open spec fn jget_opt_string(j: Json, key: Seq<char>) -> Option<Seq<char>> {
    match jget(j, key) {
        Some(Json::Text(s)) => Some(s@),
        _ => None,
    }
}

/// An optional `u64` field: present exactly when the field is an unsigned
/// integer.
pub open spec fn jget_opt_u64(j: Json, key: Seq<char>) -> Option<u64> {
    match jget(j, key) {
        Some(Json::U64(n)) => Some(n),
        _ => None,
    }
}

/// An optional boolean field: present exactly when the field is a boolean.
pub open spec fn jget_opt_bool(j: Json, key: Seq<char>) -> Option<bool> {
    match jget(j, key) {
        Some(Json::Bool(b)) => Some(b),
        _ => None,
    }
}

/// An array field: its items when present as an array, else no items.
pub open spec fn jget_arr(j: Json, key: Seq<char>) -> Seq<Json> {
    match jget(j, key) {
        Some(Json::Arr(items)) => items@,
        _ => Seq::empty(),
    }
}

/// An object field: present exactly when the field is itself an object.
pub open spec fn jget_obj(j: Json, key: Seq<char>) -> Option<Json> {
    match jget(j, key) {
        Some(Json::Obj(entries)) => Some(Json::Obj(entries)),
        _ => None,
    }
}

/// An array element read as a `u64`, zero for anything else.
pub open spec fn elem_u64(j: Json) -> u64 {
    match j {
        Json::U64(n) => n,
        _ => 0,
    }
}

/// An array element read as a `u32`, zero for anything else or out of range.
pub open spec fn elem_u32(j: Json) -> u32 {
    match j {
        Json::U64(n) => if n <= u32::MAX as u64 {
            n as u32
        } else {
            0
        },
        _ => 0,
    }
}

/// An array element read as text, empty for anything else.
pub open spec fn elem_string(j: Json) -> Seq<char> {
    match j {
        Json::Text(s) => s@,
        _ => Seq::empty(),
    }
}

/// Looks `key` up among the fields of `j`.
pub fn obj_get<'a>(j: &'a Json, key: &str) -> (r: Option<&'a Json>)
    ensures
        match r {
            Some(v) => jget(*j, key@) == Some(*v),
            None => jget(*j, key@) is None,
        },
{
    let k: String = key.to_owned();
    match j {
        Json::Obj(entries) => {
            let n = entries.len();
            proof {
                assert(entries@.skip(0) =~= entries@);
            }
            for i in 0..n
                invariant
                    n == entries@.len(),
                    k@ == key@,
                    obj_entries(*j) == entries@,
                    lookup(entries@, key@) == lookup(entries@.skip(i as int), key@),
            {
                if entries[i].0 == k {
                    proof {
                        assert(entries@.skip(i as int)[0] == entries@[i as int]);
                    }
                    return Some(&entries[i].1);
                }
                proof {
                    assert(entries@.skip(i as int).drop_first() =~= entries@.skip(i + 1));
                    assert(entries@.skip(i as int)[0] == entries@[i as int]);
                }
            }
            proof {
                assert(entries@.skip(n as int) =~= Seq::<(String, Json)>::empty());
            }
            None
        },
        _ => None,
    }
}

/// Reads field `key` as an unsigned counter, defaulting to zero.
pub fn get_u64(j: &Json, key: &str) -> (r: u64)
    ensures
        r == jget_u64(*j, key@),
{
    match obj_get(j, key) {
        Some(Json::U64(n)) => *n,
        _ => 0,
    }
}

/// Reads field `key` as a `u32` counter, defaulting to zero.
pub fn get_u32(j: &Json, key: &str) -> (r: u32)
    ensures
        r == jget_u32(*j, key@),
{
    match obj_get(j, key) {
        Some(Json::U64(n)) => if *n <= u32::MAX as u64 {
            *n as u32
        } else {
            0
        },
        _ => 0,
    }
}

/// Reads field `key` as an `i32` counter that may be negative, defaulting to
/// zero.
pub fn get_i32(j: &Json, key: &str) -> (r: i32)
    ensures
        r == jget_i32(*j, key@),
{
    match obj_get(j, key) {
        Some(Json::U64(n)) => if *n <= i32::MAX as u64 {
            *n as i32
        } else {
            0
        },
        Some(Json::I64(n)) => if i32::MIN as i64 <= *n && *n <= i32::MAX as i64 {
            *n as i32
        } else {
            0
        },
        _ => 0,
    }
}

/// Reads field `key` as a boolean, defaulting to false.
pub fn get_bool(j: &Json, key: &str) -> (r: bool)
    ensures
        r == jget_bool(*j, key@),
{
    match obj_get(j, key) {
        Some(Json::Bool(b)) => *b,
        _ => false,
    }
}

/// Reads field `key` as a required string, defaulting to the empty string.
pub fn get_string(j: &Json, key: &str) -> (r: String)
    ensures
        r@ == jget_string(*j, key@),
{
    match obj_get(j, key) {
        Some(Json::Text(s)) => s.clone(),
        _ => String::new(),
    }
}

/// Reads field `key` as an optional string.
pub fn get_opt_string(j: &Json, key: &str) -> (r: Option<String>)
    ensures
        match r {
            Some(s) => jget_opt_string(*j, key@) == Some(s@),
            None => jget_opt_string(*j, key@) is None,
        },
{
    match obj_get(j, key) {
        Some(Json::Text(s)) => Some(s.clone()),
        _ => None,
    }
}

/// Reads field `key` as an optional `u64`.
pub fn get_opt_u64(j: &Json, key: &str) -> (r: Option<u64>)
    ensures
        r == jget_opt_u64(*j, key@),
{
    match obj_get(j, key) {
        Some(Json::U64(n)) => Some(*n),
        _ => None,
    }
}

/// Reads field `key` as an optional boolean.
pub fn get_opt_bool(j: &Json, key: &str) -> (r: Option<bool>)
    ensures
        r == jget_opt_bool(*j, key@),
{
    match obj_get(j, key) {
        Some(Json::Bool(b)) => Some(*b),
        _ => None,
    }
}

/// Borrows field `key` as an array of items; `None` stands for no items
/// (field absent or not an array).
pub fn get_arr<'a>(j: &'a Json, key: &str) -> (r: Option<&'a Vec<Json>>)
    ensures
        match r {
            Some(items) => items@ == jget_arr(*j, key@),
            None => jget_arr(*j, key@) == Seq::<Json>::empty(),
        },
{
    match obj_get(j, key) {
        Some(Json::Arr(items)) => Some(items),
        _ => None,
    }
}

/// Borrows field `key` when it is itself an object.
pub fn get_obj<'a>(j: &'a Json, key: &str) -> (r: Option<&'a Json>)
    ensures
        match r {
            Some(v) => jget_obj(*j, key@) == Some(*v),
            None => jget_obj(*j, key@) is None,
        },
{
    match obj_get(j, key) {
        Some(v) => match v {
            Json::Obj(_) => Some(v),
            _ => None,
        },
        _ => None,
    }
}

/// Whether `v` holds exactly the text elements of `items`, in order, with
/// non-text elements read as empty strings.
pub open spec fn strings_match(v: Seq<String>, items: Seq<Json>) -> bool {
    v.len() == items.len() && forall|i: int| 0 <= i < v.len() ==> v[i]@ == elem_string(#[trigger] items[i])
}

/// Reads the array field `key` as `u32` values, each defaulting to zero.
pub fn get_u32_arr(j: &Json, key: &str) -> (r: Vec<u32>)
    ensures
        r@ == jget_arr(*j, key@).map_values(|e: Json| elem_u32(e)),
{
    let ghost target = jget_arr(*j, key@).map_values(|e: Json| elem_u32(e));
    let mut r: Vec<u32> = Vec::new();
    match get_arr(j, key) {
        Some(items) => {
            let n = items.len();
            for i in 0..n
                invariant
                    n == items@.len(),
                    items@ == jget_arr(*j, key@),
                    target == jget_arr(*j, key@).map_values(|e: Json| elem_u32(e)),
                    r@ == target.take(i as int),
            {
                match &items[i] {
                    Json::U64(v) => if *v <= u32::MAX as u64 {
                        r.push(*v as u32);
                    } else {
                        r.push(0);
                    },
                    _ => r.push(0),
                }
                proof {
                    assert(r@ =~= target.take(i + 1));
                }
            }
            proof {
                assert(target.take(n as int) =~= target);
            }
        },
        None => {
            proof {
                assert(r@ =~= target);
            }
        },
    }
    r
}

/// Reads the array field `key` as `u64` values, each defaulting to zero.
pub fn get_u64_arr(j: &Json, key: &str) -> (r: Vec<u64>)
    ensures
        r@ == jget_arr(*j, key@).map_values(|e: Json| elem_u64(e)),
{
    let ghost target = jget_arr(*j, key@).map_values(|e: Json| elem_u64(e));
    let mut r: Vec<u64> = Vec::new();
    match get_arr(j, key) {
        Some(items) => {
            let n = items.len();
            for i in 0..n
                invariant
                    n == items@.len(),
                    items@ == jget_arr(*j, key@),
                    target == jget_arr(*j, key@).map_values(|e: Json| elem_u64(e)),
                    r@ == target.take(i as int),
            {
                match &items[i] {
                    Json::U64(v) => r.push(*v),
                    _ => r.push(0),
                }
                proof {
                    assert(r@ =~= target.take(i + 1));
                }
            }
            proof {
                assert(target.take(n as int) =~= target);
            }
        },
        None => {
            proof {
                assert(r@ =~= target);
            }
        },
    }
    r
}

/// Reads the array field `key` as strings, each defaulting to empty.
pub fn get_string_arr(j: &Json, key: &str) -> (r: Vec<String>)
    ensures
        strings_match(r@, jget_arr(*j, key@)),
{
    let mut r: Vec<String> = Vec::new();
    match get_arr(j, key) {
        Some(items) => {
            let n = items.len();
            for i in 0..n
                invariant
                    n == items@.len(),
                    items@ == jget_arr(*j, key@),
                    r@.len() == i,
                    forall|k: int| 0 <= k < i ==> r@[k]@ == elem_string(#[trigger] items@[k]),
            {
                match &items[i] {
                    Json::Text(s) => r.push(s.clone()),
                    _ => r.push(String::new()),
                }
            }
        },
        None => {},
    }
    r
}

#[verifier::external_type_specification]
#[verifier::external_body]
pub struct ExValue(serde_json::Value);

/// What a text parses to as a JSON document: `None` where `serde_json`
/// rejects the text, otherwise the document as plain data. Parsing is a
/// fixed function of the text alone.
pub uninterp spec fn json_doc(s: Seq<char>) -> Option<Json>;

/// What a `serde_json::Value` holds, as plain data.
pub uninterp spec fn value_model(v: serde_json::Value) -> Json;

/// Relies on `serde_json::from_str::<serde_json::Value>`: it accepts exactly
/// the well-formed JSON texts, and the value it returns is determined by the
/// text alone; `json_doc` names that result.
#[verifier::external_body]
fn parse_value(s: &str) -> (r: Option<serde_json::Value>)
    ensures
        match r {
            Some(v) => json_doc(s@) == Some(value_model(v)),
            None => json_doc(s@) is None,
        },
{
    serde_json::from_str::<serde_json::Value>(s).ok()
}

/// Relies on `serde_json::Value` (its variants, and `Number::as_u64` /
/// `Number::as_i64`, which return the integer exactly when it is
/// representable): reads the parsed document out as the plain data that
/// `value_model` names, one arm per variant.
#[verifier::external_body]
fn value_tree(v: &serde_json::Value) -> (r: Json)
    ensures
        r == value_model(*v),
{
    match v {
        serde_json::Value::Null => Json::Null,
        serde_json::Value::Bool(b) => Json::Bool(*b),
        serde_json::Value::Number(n) => match (n.as_u64(), n.as_i64()) {
            (Some(u), _) => Json::U64(u),
            (None, Some(i)) => Json::I64(i),
            _ => Json::Other,
        },
        serde_json::Value::String(s) => Json::Text(s.clone()),
        serde_json::Value::Array(a) => Json::Arr(a.iter().map(value_tree).collect()),
        serde_json::Value::Object(m) => Json::Obj(m.iter().map(|(k, x)| (k.clone(), value_tree(x))).collect()),
    }
}

/// Parses `s` as a JSON document, as plain data.
pub fn parse_json(s: &str) -> (r: Option<Json>)
    ensures
        r == json_doc(s@),
{
    match parse_value(s) {
        Some(v) => Some(value_tree(&v)),
        None => None,
    }
}

} // verus!
