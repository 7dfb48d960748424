//! JSON values as the tunnel handshake reads them, through the `serde_json`
//! crate.

use vstd::prelude::*;
use ::serde_json::Value as SerdeValue;

verus! {

#[verifier::external_type_specification]
#[verifier::external_body]
pub struct ExJsonValue(::serde_json::Value);

/// A JSON value. Objects keep their members in the order they are listed.
#[derive(Debug)]
pub enum JsonValue {
    Null,
    Bool(bool),
    /// A non-negative integer.
    Unsigned(u64),
    /// A negative integer.
    Signed(i64),
    String(String),
    Array(Vec<JsonValue>),
    Object(Vec<(String, JsonValue)>),
    /// A number with a fraction or exponent, carried through unread.
    Other(::serde_json::Value),
}

/// The member named `key` in `members`: the first one with that name.
pub open spec fn member_get(members: Seq<(String, JsonValue)>, key: Seq<char>) -> Option<JsonValue>
    decreases members.len(),
{
    if members.len() == 0 {
        None
    } else if members[0].0@ == key {
        Some(members[0].1)
    } else {
        member_get(members.drop_first(), key)
    }
}

/// The member named `key` when `v` is an object that has it.
pub open spec fn json_get(v: JsonValue, key: Seq<char>) -> Option<JsonValue> {
    match v {
        JsonValue::Object(m) => member_get(m@, key),
        _ => None,
    }
}

/// What `serde_json` reads from `b`, or `None` where it refuses it.
pub uninterp spec fn json_from_text(b: Seq<u8>) -> Option<JsonValue>;

proof fn lemma_member_get_at(m: Seq<(String, JsonValue)>, key: Seq<char>, i: int)
    requires
        0 <= i < m.len(),
        m[i].0@ == key,
        forall|j: int| 0 <= j < i ==> m[j].0@ != key,
    ensures
        member_get(m, key) == Some(m[i].1),
    decreases i,
{
    if i > 0 {
        lemma_member_get_at(m.drop_first(), key, i - 1);
    }
}

proof fn lemma_member_get_none(m: Seq<(String, JsonValue)>, key: Seq<char>)
    requires
        forall|j: int| 0 <= j < m.len() ==> m[j].0@ != key,
    ensures
        member_get(m, key) is None,
    decreases m.len(),
{
    if m.len() > 0 {
        lemma_member_get_none(m.drop_first(), key);
    }
}

impl JsonValue {
    /// The member named `key`, when `self` is an object that has it.
    pub fn get(&self, key: &str) -> (r: Option<&JsonValue>)
        ensures
            r matches Some(x) ==> json_get(*self, key@) == Some(*x),
            r is None ==> json_get(*self, key@) is None,
    {
        match self {
            JsonValue::Object(m) => {
                let wanted = key.to_owned();
                let mut i: usize = 0;
                while i < m.len()
                    invariant
                        i <= m@.len(),
                        wanted@ == key@,
                        *self == JsonValue::Object(*m),
                        forall|j: int| 0 <= j < i ==> m@[j].0@ != key@,
                    decreases m.len() - i,
                {
                    if m[i].0 == wanted {
                        proof {
                            lemma_member_get_at(m@, key@, i as int);
                        }
                        return Some(&m[i].1);
                    }
                    i = i + 1;
                }
                proof {
                    lemma_member_get_none(m@, key@);
                }
                None
            },
            _ => None,
        }
    }
}

/// Relies on `serde_json::from_slice`: whether text is read, and what is read
/// from it, depends on its bytes alone.
#[verifier::external_body]
pub fn from_json(b: &[u8]) -> (r: Result<JsonValue, ::serde_json::Error>)
    ensures
        r is Ok <==> json_from_text(b@) is Some,
        r matches Ok(v) ==> json_from_text(b@) == Some(v),
{
    ::serde_json::from_slice::<::serde_json::Value>(b).map(from_outside)
}

/// Converts a value of the `serde_json` crate, variant for variant.
#[verifier::external_body]
fn from_outside(v: SerdeValue) -> JsonValue {
    match v {
        SerdeValue::Null => JsonValue::Null,
        SerdeValue::Bool(b) => JsonValue::Bool(b),
        SerdeValue::Number(n) => match (n.as_u64(), n.as_i64()) {
            (Some(u), _) => JsonValue::Unsigned(u),
            (None, Some(i)) => JsonValue::Signed(i),
            (None, None) => JsonValue::Other(SerdeValue::Number(n)),
        },
        SerdeValue::String(s) => JsonValue::String(s),
        SerdeValue::Array(a) => JsonValue::Array(a.into_iter().map(from_outside).collect()),
        SerdeValue::Object(m) => JsonValue::Object(
            m.into_iter().map(|(k, x)| (k, from_outside(x))).collect(),
        ),
    }
}

} // verus!
