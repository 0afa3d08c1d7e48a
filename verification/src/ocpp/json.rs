//! JSON values as the OCPP framing reads them.
use vstd::prelude::*;

verus! {

/// A JSON number.
#[derive(Debug, Clone, Copy, PartialEq, Eq, Structural)]
pub enum JsonNumber {
    /// A non-negative integer.
    PosInt(u64),
    /// A negative integer.
    NegInt(i64),
    /// A floating-point number, by its IEEE 754 bit pattern.
    Float(u64),
}

/// A JSON value. Object members keep the order they are given in; JSON
/// read by `serde_json` (an ordered map without `preserve_order`) has them
/// sorted by name.
#[derive(Debug)]
pub enum JsonValue {
    /// `null`.
    Null,
    /// `true` or `false`.
    Bool(bool),
    /// A number.
    Number(JsonNumber),
    /// A string.
    Str(String),
    /// An array.
    Array(Vec<JsonValue>),
    /// An object, as its members.
    Object(Vec<(String, JsonValue)>),
}

/// The index of the first member of `members` named `key`, if any.
pub open spec fn first_member(members: Seq<(String, JsonValue)>, key: Seq<char>) -> Option<int> {
    if exists|i: int| 0 <= i < members.len() && (#[trigger] members[i]).0@ == key {
        let i = choose|i: int|
            0 <= i < members.len() && (#[trigger] members[i]).0@ == key && forall|j: int|
                0 <= j < i ==> (#[trigger] members[j]).0@ != key;
        Some(i)
    } else {
        None
    }
}

impl JsonValue {
    /// The string held by a string value.
    pub open spec fn str_of(self) -> Option<String> {
        match self {
            JsonValue::Str(s) => Some(s),
            _ => None,
        }
    }

    /// The number held by a non-negative integer value.
    pub open spec fn u64_of(self) -> Option<u64> {
        match self {
            JsonValue::Number(JsonNumber::PosInt(n)) => Some(n),
            _ => None,
        }
    }

    /// The member `key` of an object value.
    pub open spec fn member(self, key: Seq<char>) -> Option<JsonValue> {
        match self {
            JsonValue::Object(members) => match first_member(members@, key) {
                Some(i) => Some(members@[i].1),
                None => None,
            },
            _ => None,
        }
    }

    /// The text of a string value.
    pub fn as_str(&self) -> (r: Option<&str>)
        ensures
            r is Some <==> self.str_of() is Some,
            r matches Some(s) ==> s@ == self.str_of()->0@,
    {
        match self {
            JsonValue::Str(s) => Some(s.as_str()),
            _ => None,
        }
    }

    /// The value of a non-negative integer.
    pub fn as_u64(&self) -> (r: Option<u64>)
        ensures
            r == self.u64_of(),
    {
        match self {
            JsonValue::Number(JsonNumber::PosInt(n)) => Some(*n),
            _ => None,
        }
    }

    /// The first member of an object named `key`.
    pub fn get(&self, key: &str) -> (r: Option<&JsonValue>)
        ensures
            r is Some <==> self.member(key@) is Some,
            r matches Some(v) ==> *v == self.member(key@)->0,
    {
        match self {
            JsonValue::Object(members) => match find_member(members, key) {
                Some(i) => Some(&members[i].1),
                None => None,
            },
            _ => None,
        }
    }
}

/// The position of the first member named `key`.
pub fn find_member(members: &Vec<(String, JsonValue)>, key: &str) -> (r: Option<usize>)
    ensures
        match r {
            Some(i) => i < members@.len() && first_member(members@, key@) == Some(i as int),
            None => first_member(members@, key@) is None,
        },
{
    let mut i: usize = 0;
    while i < members.len()
        invariant
            i <= members.len(),
            forall|j: int| 0 <= j < i ==> (#[trigger] members@[j]).0@ != key@,
        decreases members.len() - i,
    {
        if crate::text::str_eq(members[i].0.as_str(), key) {
            proof {
                let m = members@;
                let ii = i as int;
                assert(0 <= ii < m.len() && (#[trigger] m[ii]).0@ == key@);
                assert(0 <= ii < m.len() && (#[trigger] m[ii]).0@ == key@ && forall|j: int|
                    0 <= j < ii ==> (#[trigger] m[j]).0@ != key@);
                let k = choose|k: int|
                    0 <= k < m.len() && (#[trigger] m[k]).0@ == key@ && forall|j: int|
                        0 <= j < k ==> (#[trigger] m[j]).0@ != key@;
                if k < ii {
                    assert(m[k].0@ != key@);
                }
                if k > ii {
                    assert(m[ii].0@ != key@);
                }
            }
            return Some(i);
        }
        i = i + 1;
    }
    None
}

} // verus!

verus! {

/// JSON values as `serde_json` holds them.
#[verifier::external_type_specification]
#[verifier::external_body]
pub struct ExSerdeJsonValue(serde_json::Value);

/// JSON numbers as `serde_json` holds them.
#[verifier::external_type_specification]
#[verifier::external_body]
pub struct ExSerdeJsonNumber(serde_json::Number);

/// The JSON value that `serde_json::from_str::<serde_json::Value>` reads
/// from `text`, in this module's form, or `None` when it refuses the text.
pub uninterp spec fn json_read(text: Seq<char>) -> Option<JsonValue>;

/// The message (`to_string` of the error) that
/// `serde_json::from_str::<serde_json::Value>` gives when it refuses `text`.
pub uninterp spec fn json_read_error(text: Seq<char>) -> Seq<char>;

/// A `serde_json` number in this module's form: a non-negative integer, a
/// negative integer, or else the bit pattern of its float value.
#[verifier::external_body]
fn number_from_serde(n: &serde_json::Number) -> JsonNumber {
    match (n.as_u64(), n.as_i64()) {
        (Some(u), _) => JsonNumber::PosInt(u),
        (None, Some(i)) => JsonNumber::NegInt(i),
        (None, None) => JsonNumber::Float(n.as_f64().map(|x| x.to_bits()).unwrap_or(0)),
    }
}

/// A `serde_json` value in this module's form, variant by variant; object
/// members keep the order `serde_json` gives them.
#[verifier::external_body]
fn value_from_serde(v: &serde_json::Value) -> JsonValue {
    match v {
        serde_json::Value::Null => JsonValue::Null,
        serde_json::Value::Bool(b) => JsonValue::Bool(*b),
        serde_json::Value::Number(n) => JsonValue::Number(number_from_serde(n)),
        serde_json::Value::String(s) => JsonValue::Str(s.clone()),
        serde_json::Value::Array(a) => JsonValue::Array(a.iter().map(value_from_serde).collect()),
        serde_json::Value::Object(o) => JsonValue::Object(o.iter().map(|(k, x)| (k.clone(), value_from_serde(x))).collect()),
    }
}

/// Reads JSON text with `serde_json::from_str::<serde_json::Value>`: the
/// value read, named `json_read`, or `serde_json`'s message when it refuses
/// the text, named `json_read_error`. What either holds on given text is not
/// stated.
#[verifier::external_body]
pub(crate) fn read_json(raw: &str) -> (r: Result<JsonValue, String>)
    ensures
        r matches Ok(v) ==> json_read(raw@) == Some(v),
        r matches Err(e) ==> json_read(raw@) is None && e@ == json_read_error(raw@),
{
    match serde_json::from_str::<serde_json::Value>(raw) {
        Ok(v) => Ok(value_from_serde(&v)),
        Err(e) => Err(e.to_string()),
    }
}

} // verus!
