//! A JSON document as the agents read it: tool arguments and blueprints.
//!
//! Parsing JSON text into this type happens at the edge of the program; the
//! library only inspects values.
use vstd::prelude::*;

verus! {

/// A JSON value. Integral numbers that fit `i64` keep their value, larger
/// non-negative integers are `BigUInt`; every other number is
/// `OtherNumber`. Object members keep their order.
#[derive(Debug)]
pub enum JsonValue {
    Null,
    Bool(bool),
    Int(i64),
    BigUInt(u64),
    OtherNumber,
    Str(String),
    Array(Vec<JsonValue>),
    Object(Vec<(String, JsonValue)>),
}

/// The value of the first member named `key`.
pub open spec fn field(fields: Seq<(String, JsonValue)>, key: Seq<char>) -> Option<JsonValue>
    decreases fields.len(),
{
    if fields.len() == 0 {
        None
    } else if fields[0].0@ == key {
        Some(fields[0].1)
    } else {
        field(fields.drop_first(), key)
    }
}

/// `value.get(key)`: a member of an object; `None` for other values.
pub open spec fn get(v: JsonValue, key: Seq<char>) -> Option<JsonValue> {
    match v {
        JsonValue::Object(fields) => field(fields@, key),
        _ => None,
    }
}

/// `value.get(key).and_then(Value::as_str)`.
pub open spec fn get_str(v: JsonValue, key: Seq<char>) -> Option<Seq<char>> {
    match get(v, key) {
        Some(JsonValue::Str(s)) => Some(s@),
        _ => None,
    }
}

/// `value.get(key).and_then(Value::as_str).unwrap_or_default()`.
pub open spec fn get_str_or_empty(v: JsonValue, key: Seq<char>) -> Seq<char> {
    match get_str(v, key) {
        Some(s) => s,
        None => seq![],
    }
}

/// `value.get(key).and_then(Value::as_array)`.
pub open spec fn get_array(v: JsonValue, key: Seq<char>) -> Option<Seq<JsonValue>> {
    match get(v, key) {
        Some(JsonValue::Array(a)) => Some(a@),
        _ => None,
    }
}

impl JsonValue {
    /// The member named `key`, if this is an object that has one.
    pub fn get(&self, key: &str) -> (r: Option<&JsonValue>)
        ensures
            match r {
                Some(x) => get(*self, key@) == Some(*x),
                None => get(*self, key@) is None,
            },
    {
        match self {
            JsonValue::Object(fields) => {
                let mut i: usize = 0;
                assert(fields@.skip(0) =~= fields@);
                while i < fields.len()
                    invariant
                        i <= fields@.len(),
                        get(*self, key@) == field(fields@, key@),
                        field(fields@, key@) == field(fields@.skip(i as int), key@),
                    decreases fields.len() - i,
                {
                    assert(fields@.skip(i as int).drop_first() =~= fields@.skip(i + 1));
                    assert(fields@.skip(i as int)[0] == fields@[i as int]);
                    if crate::text::str_eq(fields[i].0.as_str(), key) {
                        assert(fields@.skip(i as int).len() > 0);
                        assert(field(fields@.skip(i as int), key@) == Some(fields@[i as int].1));
                        return Some(&fields[i].1);
                    }
                    i = i + 1;
                }
                None
            },
            _ => None,
        }
    }

    /// The text of a string value.
    pub fn as_str(&self) -> (r: Option<&str>)
        ensures
            match r {
                Some(s) => *self matches JsonValue::Str(t) && t@ == s@,
                None => !(*self is Str),
            },
    {
        match self {
            JsonValue::Str(s) => Some(s.as_str()),
            _ => None,
        }
    }

    /// The items of an array value.
    pub fn as_array(&self) -> (r: Option<&Vec<JsonValue>>)
        ensures
            match r {
                Some(a) => *self == JsonValue::Array(*a),
                None => !(*self is Array),
            },
    {
        match self {
            JsonValue::Array(a) => Some(a),
            _ => None,
        }
    }

    /// An integral number that fits `i64`.
    pub fn as_i64(&self) -> (r: Option<i64>)
        ensures
            match r {
                Some(n) => *self == JsonValue::Int(n),
                None => !(*self is Int),
            },
    {
        match self {
            JsonValue::Int(n) => Some(*n),
            _ => None,
        }
    }

    /// A non-negative integral number that fits `u64`.
    pub fn as_u64(&self) -> (r: Option<u64>)
        ensures
            match r {
                Some(n) => (*self == JsonValue::Int(n as i64) && n <= i64::MAX) || *self
                    == JsonValue::BigUInt(n),
                None => !(*self is BigUInt) && !(*self matches JsonValue::Int(k) && k >= 0),
            },
    {
        match self {
            JsonValue::Int(n) => if *n >= 0 {
                Some(*n as u64)
            } else {
                None
            },
            JsonValue::BigUInt(n) => Some(*n),
            _ => None,
        }
    }

    /// Is this `null`?
    pub fn is_null(&self) -> (b: bool)
        ensures
            b == (*self is Null),
    {
        match self {
            JsonValue::Null => true,
            _ => false,
        }
    }

    /// Is this an object?
    pub fn is_object(&self) -> (b: bool)
        ensures
            b == (*self is Object),
    {
        match self {
            JsonValue::Object(_) => true,
            _ => false,
        }
    }
}

/// `value.get(key).and_then(Value::as_str)`.
pub fn get_str_exec<'a>(v: &'a JsonValue, key: &str) -> (r: Option<&'a str>)
    ensures
        match r {
            Some(s) => get_str(*v, key@) == Some(s@),
            None => get_str(*v, key@) is None,
        },
{
    match v.get(key) {
        Some(x) => x.as_str(),
        None => None,
    }
}

/// `value.get(key).and_then(Value::as_str).unwrap_or_default()`.
pub fn get_str_or_empty_exec<'a>(v: &'a JsonValue, key: &str) -> (r: &'a str)
    ensures
        r@ == get_str_or_empty(*v, key@),
{
    proof {
        reveal_strlit("");
    }
    match get_str_exec(v, key) {
        Some(s) => s,
        None => "",
    }
}

/// `value.get(key).and_then(Value::as_array)`.
pub fn get_array_exec<'a>(v: &'a JsonValue, key: &str) -> (r: Option<&'a Vec<JsonValue>>)
    ensures
        match r {
            Some(a) => get_array(*v, key@) == Some(a@),
            None => get_array(*v, key@) is None,
        },
{
    match v.get(key) {
        Some(x) => x.as_array(),
        None => None,
    }
}

/// The error for a missing or non-string tool argument.
pub open spec fn not_a_string_msg(key: Seq<char>) -> Seq<char> {
    "tool argument '"@ + key + "' must be a string"@
}

/// A required string argument of a tool call.
pub fn required_str(arguments: &JsonValue, key: &str) -> (r: Result<String, String>)
    ensures
        match r {
            Ok(s) => get_str(*arguments, key@) == Some(s@),
            Err(e) => get_str(*arguments, key@) is None && e@ == not_a_string_msg(key@),
        },
{
    match get_str_exec(arguments, key) {
        Some(s) => Ok(s.to_owned()),
        None => {
            let mut m = "tool argument '".to_owned();
            m.append(key);
            m.append("' must be a string");
            Err(m)
        },
    }
}

/// The string items of an array, in order (other items skipped).
pub open spec fn string_items(items: Seq<JsonValue>) -> Seq<Seq<char>>
    decreases items.len(),
{
    if items.len() == 0 {
        seq![]
    } else {
        let rest = string_items(items.drop_last());
        match items.last() {
            JsonValue::Str(s) => rest.push(s@),
            _ => rest,
        }
    }
}

/// `items.iter().filter_map(|v| v.as_str().map(str::to_string)).collect()`.
pub fn collect_strings(items: &Vec<JsonValue>) -> (r: Vec<String>)
    ensures
        crate::text::string_views(r@) == string_items(items@),
{
    let mut r: Vec<String> = Vec::new();
    let mut i: usize = 0;
    while i < items.len()
        invariant
            i <= items@.len(),
            crate::text::string_views(r@) == string_items(items@.take(i as int)),
        decreases items.len() - i,
    {
        assert(items@.take(i + 1).drop_last() =~= items@.take(i as int));
        match &items[i] {
            JsonValue::Str(s) => {
                let ghost before = r@;
                r.push(s.clone());
                assert(crate::text::string_views(r@) =~= crate::text::string_views(before).push(
                    s@,
                ));
            },
            _ => {},
        }
        i = i + 1;
    }
    assert(items@.take(items@.len() as int) =~= items@);
    r
}

// ---------------------------------------------------------------------------
// Argument text
// ---------------------------------------------------------------------------

/// serde_json's own text for the JSON value `raw` holds (what `Value::to_string`
/// writes for `serde_json::from_str(raw)`); `None` when `raw` does not parse.
pub uninterp spec fn json_rewritten(raw: Seq<char>) -> Option<Seq<char>>;

/// Parses `raw` with `serde_json::from_str` into a `serde_json::Value` and writes
/// that value back with its `to_string` (compact, object keys in the map's order).
/// The contract only names the result as a function of `raw`; nothing is stated
/// about which texts parse or how the text is laid out.
#[verifier::external_body]
fn rewrite_json_text(raw: &str) -> (r: Option<String>)
    ensures
        match r {
            Some(t) => json_rewritten(raw@) == Some(t@),
            None => json_rewritten(raw@) is None,
        },
{
    match serde_json::from_str::<serde_json::Value>(raw) {
        Ok(v) => Some(v.to_string()),
        Err(_) => None,
    }
}

/// How a tool call's arguments are written in notes and compared between calls:
/// the JSON value they hold, as serde_json writes it; arguments that are not
/// JSON read as `null` (their parsed value is `Null`).
pub open spec fn call_text(raw: Seq<char>) -> Seq<char> {
    match json_rewritten(raw) {
        Some(t) => t,
        None => "null"@,
    }
}

/// The arguments of a tool call as `call_text` writes them.
pub fn call_arguments_text(raw: &str) -> (r: String)
    ensures
        r@ == call_text(raw@),
{
    match rewrite_json_text(raw) {
        Some(t) => t,
        None => "null".to_owned(),
    }
}

} // verus!
