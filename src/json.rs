//! A JSON document as plain values, and typed readers of its object fields.
use vstd::prelude::*;

verus! {

/// A JSON number, as the parser classified it.
#[derive(Debug)]
pub enum JsonNumber {
    /// A non-negative integer.
    PosInt(u64),
    /// A negative integer.
    NegInt(i64),
    /// Any other number, as its shortest decimal text.
    Float(String),
}

/// A JSON value. An object keeps one entry per key.
#[derive(Debug)]
pub enum Json {
    Null,
    Bool(bool),
    Number(JsonNumber),
    Str(String),
    Array(Vec<Json>),
    Object(Vec<(String, Json)>),
}

/// Why a response body could not be decoded.
#[derive(Clone, Copy, Debug, PartialEq, Eq)]
pub enum DecodeError {
    /// The body is not JSON text.
    InvalidJson,
    /// The body is JSON but does not have the expected shape.
    SchemaViolation,
}

#[verifier::external_type_specification]
#[verifier::external_body]
pub struct ExValue(serde_json::Value);

/// The document that a JSON text holds, if it is one.
pub uninterp spec fn json_of_text(text: Seq<char>) -> Option<Json>;

/// Converts a parsed document for `parse_json`. Relies on serde_json::Value's
/// variants, each moved into the matching `Json` variant, and on serde_json::Number's
/// `as_u64`, `as_i64` and `Display` to classify and write out numbers.
#[verifier::external_body]
fn from_value(v: serde_json::Value) -> Json {
    match v {
        serde_json::Value::Null => Json::Null,
        serde_json::Value::Bool(b) => Json::Bool(b),
        serde_json::Value::Number(n) => Json::Number(match (n.as_u64(), n.as_i64()) {
            (Some(u), _) => JsonNumber::PosInt(u),
            (None, Some(i)) => JsonNumber::NegInt(i),
            (None, None) => JsonNumber::Float(n.to_string()),
        }),
        serde_json::Value::String(s) => Json::Str(s),
        serde_json::Value::Array(a) => Json::Array(a.into_iter().map(from_value).collect()),
        serde_json::Value::Object(m) => Json::Object(m.into_iter().map(|(k, x)| (k, from_value(x))).collect()),
    }
}

/// Relies on serde_json::from_str into serde_json::Value: parses a JSON text,
/// failing on anything that is not one.
#[verifier::external_body]
pub(crate) fn parse_json(text: &str) -> (r: Option<Json>)
    ensures
        r == json_of_text(text@),
{
    serde_json::from_str::<serde_json::Value>(text).ok().map(from_value)
}

/// The value stored under `key` among an object's entries.
pub open spec fn lookup(entries: Seq<(String, Json)>, key: Seq<char>) -> Option<Json>
    decreases entries.len(),
{
    if entries.len() == 0 {
        None
    } else if entries[0].0@ == key {
        Some(entries[0].1)
    } else {
        lookup(entries.skip(1), key)
    }
}

/// The field `key` of `j`, when `j` is an object that has it.
pub open spec fn field(j: Json, key: Seq<char>) -> Option<Json> {
    match j {
        Json::Object(entries) => lookup(entries@, key),
        _ => None,
    }
}

/// Whether the field `key` is missing or null.
pub open spec fn absent(j: Json, key: Seq<char>) -> bool {
    field(j, key) is None || field(j, key) == Some(Json::Null)
}

/// The field `key` when it is a string.
pub open spec fn str_at(j: Json, key: Seq<char>) -> Option<String> {
    match field(j, key) {
        Some(Json::Str(s)) => Some(s),
        _ => None,
    }
}

/// The field `key` when it is a string, missing or null; `None` when it is another value.
pub open spec fn opt_str_at(j: Json, key: Seq<char>) -> Option<Option<String>> {
    if absent(j, key) {
        Some(None)
    } else {
        match str_at(j, key) {
            Some(s) => Some(Some(s)),
            None => None,
        }
    }
}

/// The field `key` when it is a boolean.
pub open spec fn bool_at(j: Json, key: Seq<char>) -> Option<bool> {
    match field(j, key) {
        Some(Json::Bool(b)) => Some(b),
        _ => None,
    }
}

/// The field `key` when it is a number of any kind.
pub open spec fn number_at(j: Json, key: Seq<char>) -> Option<JsonNumber> {
    match field(j, key) {
        Some(Json::Number(n)) => Some(n),
        _ => None,
    }
}

/// The integer value of the field `key`, when it is an integer.
pub open spec fn int_at(j: Json, key: Seq<char>) -> Option<int> {
    match field(j, key) {
        Some(Json::Number(JsonNumber::PosInt(u))) => Some(u as int),
        Some(Json::Number(JsonNumber::NegInt(i))) => Some(i as int),
        _ => None,
    }
}

/// The field `key` when it is an integer that fits a `usize`.
pub open spec fn usize_at(j: Json, key: Seq<char>) -> Option<usize> {
    match int_at(j, key) {
        Some(n) => if 0 <= n <= usize::MAX { Some(n as usize) } else { None },
        None => None,
    }
}

/// The field `key` when it is an integer that fits an `i32`.
pub open spec fn i32_at(j: Json, key: Seq<char>) -> Option<i32> {
    match int_at(j, key) {
        Some(n) => if i32::MIN <= n <= i32::MAX { Some(n as i32) } else { None },
        None => None,
    }
}

/// The field `key` when it is an integer that fits a `u32`.
pub open spec fn u32_at(j: Json, key: Seq<char>) -> Option<u32> {
    match int_at(j, key) {
        Some(n) => if 0 <= n <= u32::MAX { Some(n as u32) } else { None },
        None => None,
    }
}

/// The elements of the field `key` when it is an array.
pub open spec fn array_at(j: Json, key: Seq<char>) -> Option<Seq<Json>> {
    match field(j, key) {
        Some(Json::Array(v)) => Some(v@),
        _ => None,
    }
}

/// The elements of the field `key` when it is an array, missing or null;
/// `None` when it is another value.
pub open spec fn opt_array_at(j: Json, key: Seq<char>) -> Option<Option<Seq<Json>>> {
    if absent(j, key) {
        Some(None)
    } else {
        match array_at(j, key) {
            Some(v) => Some(Some(v)),
            None => None,
        }
    }
}

/// The field `key` of `j`, when `j` is an object that has it.
pub fn get_field<'a>(j: &'a Json, key: &str) -> (r: Option<&'a Json>)
    ensures
        match r {
            Some(v) => field(*j, key@) == Some(*v),
            None => field(*j, key@) is None,
        },
{
    match j {
        Json::Object(entries) => {
            let wanted = key.to_owned();
            let mut i: usize = 0;
            proof {
                assert(entries@.skip(0) =~= entries@);
            }
            while i < entries.len()
                invariant
                    i <= entries@.len(),
                    field(*j, key@) == lookup(entries@, key@),
                    wanted@ == key@,
                    lookup(entries@, key@) == lookup(entries@.skip(i as int), key@),
                decreases entries@.len() - i,
            {
                let e = &entries[i];
                proof {
                    assert(entries@.skip(i as int)[0] == entries@[i as int]);
                    assert(entries@.skip(i as int).skip(1) =~= entries@.skip(i + 1));
                    assert(lookup(entries@.skip(i as int), key@) == if entries@[i as int].0@ == key@ {
                        Some(entries@[i as int].1)
                    } else {
                        lookup(entries@.skip(i + 1), key@)
                    });
                }
                if e.0 == wanted {
                    proof {
                        assert(e.0@ == key@);
                        assert(lookup(entries@, key@) == Some(e.1));
                    }
                    return Some(&e.1);
                }
                i = i + 1;
            }
            None
        },
        _ => None,
    }
}

/// Whether the field `key` is missing or null.
pub fn is_absent(j: &Json, key: &str) -> (r: bool)
    ensures
        r == absent(*j, key@),
{
    match get_field(j, key) {
        None => true,
        Some(Json::Null) => true,
        Some(_) => false,
    }
}

/// Reads a string field.
pub fn read_str(j: &Json, key: &str) -> (r: Option<String>)
    ensures
        r == str_at(*j, key@),
{
    match get_field(j, key) {
        Some(Json::Str(s)) => Some(s.clone()),
        _ => None,
    }
}

/// Reads a string field that may be missing or null.
pub fn read_opt_str(j: &Json, key: &str) -> (r: Option<Option<String>>)
    ensures
        r == opt_str_at(*j, key@),
{
    if is_absent(j, key) {
        Some(None)
    } else {
        match read_str(j, key) {
            Some(s) => Some(Some(s)),
            None => None,
        }
    }
}

/// Reads a boolean field.
pub fn read_bool(j: &Json, key: &str) -> (r: Option<bool>)
    ensures
        r == bool_at(*j, key@),
{
    match get_field(j, key) {
        Some(Json::Bool(b)) => Some(*b),
        _ => None,
    }
}

/// Reads a numeric field of any kind.
pub fn read_number(j: &Json, key: &str) -> (r: Option<JsonNumber>)
    ensures
        r == number_at(*j, key@),
{
    match get_field(j, key) {
        Some(Json::Number(n)) => Some(match n {
            JsonNumber::PosInt(u) => JsonNumber::PosInt(*u),
            JsonNumber::NegInt(i) => JsonNumber::NegInt(*i),
            JsonNumber::Float(s) => JsonNumber::Float(s.clone()),
        }),
        _ => None,
    }
}

/// Reads an integer field that must fit a `usize`.
pub fn read_usize(j: &Json, key: &str) -> (r: Option<usize>)
    ensures
        r == usize_at(*j, key@),
{
    match get_field(j, key) {
        Some(Json::Number(JsonNumber::PosInt(u))) => if *u as u128 <= usize::MAX as u128 {
            Some(*u as usize)
        } else {
            None
        },
        Some(Json::Number(JsonNumber::NegInt(i))) => if *i >= 0 && *i as u128 <= usize::MAX as u128 {
            Some(*i as usize)
        } else {
            None
        },
        _ => None,
    }
}

/// Reads an integer field that must fit an `i32`.
pub fn read_i32(j: &Json, key: &str) -> (r: Option<i32>)
    ensures
        r == i32_at(*j, key@),
{
    match get_field(j, key) {
        Some(Json::Number(JsonNumber::PosInt(u))) => if *u <= i32::MAX as u64 {
            Some(*u as i32)
        } else {
            None
        },
        Some(Json::Number(JsonNumber::NegInt(i))) => if *i >= i32::MIN as i64 && *i <= i32::MAX as i64 {
            Some(*i as i32)
        } else {
            None
        },
        _ => None,
    }
}

/// Reads an integer field that must fit a `u32`.
pub fn read_u32(j: &Json, key: &str) -> (r: Option<u32>)
    ensures
        r == u32_at(*j, key@),
{
    match get_field(j, key) {
        Some(Json::Number(JsonNumber::PosInt(u))) => if *u <= u32::MAX as u64 {
            Some(*u as u32)
        } else {
            None
        },
        Some(Json::Number(JsonNumber::NegInt(i))) => if *i >= 0 && *i <= u32::MAX as i64 {
            Some(*i as u32)
        } else {
            None
        },
        _ => None,
    }
}

/// The elements of an array field.
pub fn read_array<'a>(j: &'a Json, key: &str) -> (r: Option<&'a Vec<Json>>)
    ensures
        match r {
            Some(v) => array_at(*j, key@) == Some(v@),
            None => array_at(*j, key@) is None,
        },
{
    match get_field(j, key) {
        Some(Json::Array(v)) => Some(v),
        _ => None,
    }
}

/// Whether every element is a string.
pub open spec fn valid_str_list(js: Seq<Json>) -> bool {
    forall|i: int| 0 <= i < js.len() ==> #[trigger] js[i] is Str
}

/// Whether `vs` holds the strings of `js`, in order.
pub open spec fn decodes_str_list(js: Seq<Json>, vs: Seq<String>) -> bool {
    &&& js.len() == vs.len()
    &&& forall|i: int| 0 <= i < js.len() ==> #[trigger] js[i] == Json::Str(vs[i])
}

/// Reads an array of strings.
pub fn decode_str_list(js: &Vec<Json>) -> (r: Option<Vec<String>>)
    ensures
        r is Some == valid_str_list(js@),
        r matches Some(v) ==> decodes_str_list(js@, v@),
{
    let mut out: Vec<String> = Vec::new();
    let mut i: usize = 0;
    while i < js.len()
        invariant
            i <= js@.len(),
            out@.len() == i,
            forall|k: int| 0 <= k < i ==> #[trigger] js@[k] == Json::Str(out@[k]),
        decreases js@.len() - i,
    {
        match &js[i] {
            Json::Str(s) => out.push(s.clone()),
            _ => return None,
        }
        i = i + 1;
    }
    Some(out)
}

} // verus!
