//! A plain model of a JSON document, with the lookups that the gateway's
//! decoders rely on. Text is turned into this model (and back) by serde_json.
use vstd::prelude::*;
use serde_json::Value;

verus! {

/// One JSON value. Numbers are split the way serde_json classifies them:
/// a non-negative integer, a negative integer, or any other number (kept
/// as its text, since the library holds no floating-point values).
#[derive(Debug)]
pub enum JsonValue {
    Null,
    Bool(bool),
    UInt(u64),
    NegInt(i64),
    Float(String),
    Str(String),
    Array(Vec<JsonValue>),
    Object(Vec<(String, JsonValue)>),
}

/// The value stored under `key` among `members`, the first one if the key repeats.
pub open spec fn member(members: Seq<(String, JsonValue)>, key: Seq<char>) -> Option<JsonValue>
    decreases members.len(),
{
    if members.len() == 0 {
        None
    } else if members[0].0@ == key {
        Some(members[0].1)
    } else {
        member(members.drop_first(), key)
    }
}

/// The field `key` of `v`, when `v` is an object that has it.
pub open spec fn field(v: JsonValue, key: Seq<char>) -> Option<JsonValue> {
    match v {
        JsonValue::Object(m) => member(m@, key),
        _ => None,
    }
}

/// What a caller reads from a field that must hold a non-negative integer.
pub open spec fn u64_of(v: Option<JsonValue>) -> Option<u64> {
    match v {
        Some(JsonValue::UInt(n)) => Some(n),
        _ => None,
    }
}

/// What a caller reads from a field that must hold a string.
pub open spec fn str_of(v: Option<JsonValue>) -> Option<String> {
    match v {
        Some(JsonValue::Str(s)) => Some(s),
        _ => None,
    }
}

/// What a caller reads from a field that must hold a boolean.
pub open spec fn bool_of(v: Option<JsonValue>) -> Option<bool> {
    match v {
        Some(JsonValue::Bool(b)) => Some(b),
        _ => None,
    }
}

pub open spec fn is_array(v: Option<JsonValue>) -> bool {
    v matches Some(JsonValue::Array(_))
}

/// An optional field: absent or null reads as `Some(None)`, a value of the
/// wrong kind as `None`.
pub open spec fn opt_u64_of(v: Option<JsonValue>) -> Option<Option<u64>> {
    match v {
        None => Some(None),
        Some(JsonValue::Null) => Some(None),
        Some(JsonValue::UInt(n)) => Some(Some(n)),
        _ => None,
    }
}

pub open spec fn opt_str_of(v: Option<JsonValue>) -> Option<Option<String>> {
    match v {
        None => Some(None),
        Some(JsonValue::Null) => Some(None),
        Some(JsonValue::Str(s)) => Some(Some(s)),
        _ => None,
    }
}

/// Whether two texts are the same sequence of characters.
pub fn same_text(a: &str, b: &str) -> (r: bool)
    ensures
        r == (a@ == b@),
{
    let n = a.unicode_len();
    if n != b.unicode_len() {
        return false;
    }
    let mut i: usize = 0;
    while i < n
        invariant
            n == a@.len(),
            n == b@.len(),
            i <= n,
            forall|j: int| 0 <= j < i ==> a@[j] == b@[j],
        decreases n - i,
    {
        if a.get_char(i) != b.get_char(i) {
            return false;
        }
        i = i + 1;
    }
    assert(a@ =~= b@);
    true
}

impl JsonValue {
    /// The field `key` of this value, when it is an object that has it.
    pub fn get(&self, key: &str) -> (r: Option<&JsonValue>)
        ensures
            match r {
                Some(x) => field(*self, key@) == Some(*x),
                None => field(*self, key@) is None,
            },
    {
        match self {
            JsonValue::Object(m) => {
                let mut i: usize = 0;
                assert(m@.skip(0) =~= m@);
                while i < m.len()
                    invariant
                        i <= m@.len(),
                        field(*self, key@) == member(m@, key@),
                        member(m@, key@) == member(m@.skip(i as int), key@),
                    decreases m@.len() - i,
                {
                    assert(m@.skip(i as int).drop_first() =~= m@.skip(i + 1));
                    let entry = &m[i];
                    if same_text(entry.0.as_str(), key) {
                        let ghost rest = m@.skip(i as int);
                        assert(rest[0] == *entry);
                        return Some(&entry.1);
                    }
                    i = i + 1;
                }
                assert(m@.skip(i as int).len() == 0);
                None
            },
            _ => None,
        }
    }
}

} // verus!

verus! {

#[verifier::external_type_specification]
#[verifier::external_body]
pub struct ExSerdeJsonValue(serde_json::Value);

/// The document that a JSON text denotes, if it is well-formed.
pub uninterp spec fn parsed_json(text: Seq<char>) -> Option<JsonValue>;

/// The compact JSON text that serde_json writes for a document.
pub uninterp spec fn json_text(v: JsonValue) -> Seq<char>;

/// Relies on serde_json::from_str into a serde_json::Value: a text is either
/// parsed as one whole JSON document or refused, the same text always alike.
#[verifier::external_body]
pub fn parse_json(text: &str) -> (r: Option<JsonValue>)
    ensures
        r == parsed_json(text@),
{
    match serde_json::from_str::<serde_json::Value>(text) {
        Ok(v) => Some(from_serde(&v)),
        Err(_) => None,
    }
}

/// Relies on serde_json's `Display` for serde_json::Value, which writes the
/// document as compact JSON text.
#[verifier::external_body]
pub fn encode_json(v: &JsonValue) -> (r: String)
    ensures
        r@ == json_text(*v),
{
    to_serde(v).to_string()
}

/// Converts a serde_json document into this model, value for value; used
/// only by `parse_json`.
#[verifier::external_body]
fn from_serde(v: &Value) -> JsonValue {
    match v {
        Value::Null => JsonValue::Null,
        Value::Bool(b) => JsonValue::Bool(*b),
        Value::Number(n) => match (n.as_u64(), n.as_i64()) {
            (Some(u), _) => JsonValue::UInt(u),
            (None, Some(i)) => JsonValue::NegInt(i),
            (None, None) => JsonValue::Float(n.to_string()),
        },
        Value::String(s) => JsonValue::Str(s.clone()),
        Value::Array(a) => JsonValue::Array(a.iter().map(from_serde).collect()),
        Value::Object(m) => JsonValue::Object(
            m.iter().map(|(k, x)| (k.clone(), from_serde(x))).collect(),
        ),
    }
}

/// Converts a document of this model into serde_json's, value for value;
/// used only by `encode_json`.
#[verifier::external_body]
fn to_serde(v: &JsonValue) -> Value {
    match v {
        JsonValue::Null => Value::Null,
        JsonValue::Bool(b) => Value::Bool(*b),
        JsonValue::UInt(n) => Value::from(*n),
        JsonValue::NegInt(n) => Value::from(*n),
        JsonValue::Float(t) => t.parse::<serde_json::Number>().map_or(Value::Null, Value::Number),
        JsonValue::Str(s) => Value::String(s.clone()),
        JsonValue::Array(a) => Value::Array(a.iter().map(to_serde).collect()),
        JsonValue::Object(m) => Value::Object(
            m.iter().map(|(k, x)| (k.clone(), to_serde(x))).collect(),
        ),
    }
}

} // verus!

verus! {

impl JsonValue {
    /// The non-negative integer under `key`.
    pub fn get_u64(&self, key: &str) -> (r: Option<u64>)
        ensures
            r == u64_of(field(*self, key@)),
    {
        match self.get(key) {
            Some(JsonValue::UInt(n)) => Some(*n),
            _ => None,
        }
    }

    /// A copy of the string under `key`.
    pub fn get_string(&self, key: &str) -> (r: Option<String>)
        ensures
            r == str_of(field(*self, key@)),
    {
        match self.get(key) {
            Some(JsonValue::Str(s)) => Some(s.clone()),
            _ => None,
        }
    }

    /// The boolean under `key`.
    pub fn get_bool(&self, key: &str) -> (r: Option<bool>)
        ensures
            r == bool_of(field(*self, key@)),
    {
        match self.get(key) {
            Some(JsonValue::Bool(b)) => Some(*b),
            _ => None,
        }
    }

    /// An optional non-negative integer under `key` (absent and null read as none).
    pub fn get_opt_u64(&self, key: &str) -> (r: Option<Option<u64>>)
        ensures
            r == opt_u64_of(field(*self, key@)),
    {
        match self.get(key) {
            None => Some(None),
            Some(JsonValue::Null) => Some(None),
            Some(JsonValue::UInt(n)) => Some(Some(*n)),
            _ => None,
        }
    }

    /// A copy of the optional string under `key` (absent and null read as none).
    pub fn get_opt_string(&self, key: &str) -> (r: Option<Option<String>>)
        ensures
            r == opt_str_of(field(*self, key@)),
    {
        match self.get(key) {
            None => Some(None),
            Some(JsonValue::Null) => Some(None),
            Some(JsonValue::Str(s)) => Some(Some(s.clone())),
            _ => None,
        }
    }
}

} // verus!

verus! {

/// `out` is what `decode` reads from each element of the array `v`, in order.
pub open spec fn list_of<T>(v: Option<JsonValue>, out: Seq<T>, decode: spec_fn(JsonValue) -> Option<T>) -> bool {
    match v {
        Some(JsonValue::Array(items)) => out.len() == items@.len() && forall|i: int|
            0 <= i < out.len() ==> #[trigger] decode(items@[i]) == Some(out[i]),
        _ => false,
    }
}

/// `v` is an array whose every element `decode` accepts.
pub open spec fn list_ok<T>(v: Option<JsonValue>, decode: spec_fn(JsonValue) -> Option<T>) -> bool {
    match v {
        Some(JsonValue::Array(items)) => forall|i: int|
            0 <= i < items@.len() ==> (#[trigger] decode(items@[i])) is Some,
        _ => false,
    }
}

} // verus!

verus! {

/// An optional list: absent or null reads as none, an array as what `decode`
/// reads from each element.
pub open spec fn opt_list_of<T>(v: Option<JsonValue>, out: Option<Vec<T>>, decode: spec_fn(JsonValue) -> Option<T>) -> bool {
    match v {
        None => out is None,
        Some(JsonValue::Null) => out is None,
        _ => match out {
            Some(o) => list_of(v, o@, decode),
            None => false,
        },
    }
}

pub open spec fn opt_list_ok<T>(v: Option<JsonValue>, decode: spec_fn(JsonValue) -> Option<T>) -> bool {
    v is None || v == Some(JsonValue::Null) || list_ok(v, decode)
}

} // verus!

verus! {

/// An array reads as one list only: the readings agree element by element.
pub proof fn lemma_list_of_unique<T>(v: Option<JsonValue>, a: Seq<T>, b: Seq<T>, decode: spec_fn(JsonValue) -> Option<T>)
    requires
        list_of(v, a, decode),
        list_of(v, b, decode),
    ensures
        a == b,
{
    if let Some(JsonValue::Array(items)) = v {
        assert forall|i: int| 0 <= i < a.len() implies a[i] == b[i] by {
            assert(decode(items@[i]) == Some(a[i]));
            assert(decode(items@[i]) == Some(b[i]));
        }
        assert(a =~= b);
    }
}

/// An optional array reads as one optional list only.
pub proof fn lemma_opt_list_of_unique<T>(
    v: Option<JsonValue>,
    a: Option<Vec<T>>,
    b: Option<Vec<T>>,
    decode: spec_fn(JsonValue) -> Option<T>,
)
    requires
        opt_list_of(v, a, decode),
        opt_list_of(v, b, decode),
    ensures
        a is Some <==> b is Some,
        a is Some ==> a->Some_0@ == b->Some_0@,
{
    if let (Some(x), Some(y)) = (a, b) {
        lemma_list_of_unique(v, x@, y@, decode);
    }
}

} // verus!

verus! {

pub open spec fn u32_of(v: Option<JsonValue>) -> Option<u32> {
    match u64_of(v) {
        Some(n) => if n <= u32::MAX {
            Some(n as u32)
        } else {
            None
        },
        None => None,
    }
}

pub open spec fn opt_u32_of(v: Option<JsonValue>) -> Option<Option<u32>> {
    match opt_u64_of(v) {
        Some(Some(n)) => if n <= u32::MAX {
            Some(Some(n as u32))
        } else {
            None
        },
        Some(None) => Some(None),
        None => None,
    }
}

pub open spec fn opt_bool_of(v: Option<JsonValue>) -> Option<Option<bool>> {
    match v {
        None => Some(None),
        Some(JsonValue::Null) => Some(None),
        Some(JsonValue::Bool(b)) => Some(Some(b)),
        _ => None,
    }
}

/// `out` is the array of strings `v`, in order.
pub open spec fn string_list_of(v: Option<JsonValue>, out: Seq<String>) -> bool {
    match v {
        Some(JsonValue::Array(items)) => out.len() == items@.len() && forall|i: int|
            0 <= i < out.len() ==> #[trigger] items@[i] == JsonValue::Str(out[i]),
        _ => false,
    }
}

pub open spec fn string_list_ok(v: Option<JsonValue>) -> bool {
    match v {
        Some(JsonValue::Array(items)) => forall|i: int| 0 <= i < items@.len() ==> (#[trigger] items@[i]) is Str,
        _ => false,
    }
}

/// Reads an array of strings.
pub fn decode_strings(v: &JsonValue, key: &str) -> (r: Option<Vec<String>>)
    ensures
        match r {
            Some(out) => string_list_of(field(*v, key@), out@),
            None => !string_list_ok(field(*v, key@)),
        },
{
    let items = match v.get(key) {
        Some(JsonValue::Array(items)) => items,
        _ => return None,
    };
    let mut out: Vec<String> = Vec::new();
    let mut i: usize = 0;
    while i < items.len()
        invariant
            field(*v, key@) == Some(JsonValue::Array(*items)),
            i <= items@.len(),
            out@.len() == i,
            forall|j: int| 0 <= j < i ==> items@[j] == JsonValue::Str(#[trigger] out@[j]),
        decreases items@.len() - i,
    {
        match &items[i] {
            JsonValue::Str(s) => out.push(s.clone()),
            _ => return None,
        }
        i = i + 1;
    }
    Some(out)
}

impl JsonValue {
    pub fn get_u32(&self, key: &str) -> (r: Option<u32>)
        ensures
            r == u32_of(field(*self, key@)),
    {
        match self.get_u64(key) {
            Some(n) => if n <= 4294967295 {
                Some(n as u32)
            } else {
                None
            },
            None => None,
        }
    }

    pub fn get_opt_u32(&self, key: &str) -> (r: Option<Option<u32>>)
        ensures
            r == opt_u32_of(field(*self, key@)),
    {
        match self.get_opt_u64(key) {
            Some(Some(n)) => if n <= 4294967295 {
                Some(Some(n as u32))
            } else {
                None
            },
            Some(None) => Some(None),
            None => None,
        }
    }

    pub fn get_opt_bool(&self, key: &str) -> (r: Option<Option<bool>>)
        ensures
            r == opt_bool_of(field(*self, key@)),
    {
        match self.get(key) {
            None => Some(None),
            Some(JsonValue::Null) => Some(None),
            Some(JsonValue::Bool(b)) => Some(Some(*b)),
            _ => None,
        }
    }
}

} // verus!

verus! {

/// An array of strings reads as one list only.
pub proof fn lemma_string_list_unique(v: Option<JsonValue>, a: Seq<String>, b: Seq<String>)
    requires
        string_list_of(v, a),
        string_list_of(v, b),
    ensures
        a == b,
{
    if let Some(JsonValue::Array(items)) = v {
        assert forall|i: int| 0 <= i < a.len() implies a[i] == b[i] by {
            assert(items@[i] == JsonValue::Str(a[i]));
            assert(items@[i] == JsonValue::Str(b[i]));
        }
        assert(a =~= b);
    }
}

} // verus!
