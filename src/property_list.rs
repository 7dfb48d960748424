//! Property-list values as the library reads and writes them, and their XML
//! form through the `plist` crate.

use vstd::prelude::*;
use ::plist::Value as PlistCrateValue;

verus! {

#[verifier::external_type_specification]
#[verifier::external_body]
pub struct ExPlistValue(::plist::Value);

#[verifier::external_type_specification]
#[verifier::external_body]
pub struct ExPlistError(::plist::Error);

/// A property-list value. Dictionaries keep their keys in insertion order.
#[derive(Debug)]
pub enum PlistValue {
    Array(Vec<PlistValue>),
    Dictionary(Vec<(String, PlistValue)>),
    Boolean(bool),
    Data(Vec<u8>),
    /// A non-negative integer.
    UnsignedInteger(u64),
    /// A negative integer.
    SignedInteger(i64),
    String(String),
    /// A date, real number or UID, which this library carries through unread.
    Other(::plist::Value),
}

/// The value stored under `key` in `entries`: the first entry with that key.
pub open spec fn dict_get(entries: Seq<(String, PlistValue)>, key: Seq<char>) -> Option<
    PlistValue,
>
    decreases entries.len(),
{
    if entries.len() == 0 {
        None
    } else if entries[0].0@ == key {
        Some(entries[0].1)
    } else {
        dict_get(entries.drop_first(), key)
    }
}

/// The value under `key` when `v` is a dictionary that has it.
pub open spec fn value_get(v: PlistValue, key: Seq<char>) -> Option<PlistValue> {
    match v {
        PlistValue::Dictionary(entries) => dict_get(entries@, key),
        _ => None,
    }
}

/// `v` as an unsigned integer, when it is a non-negative integer.
pub open spec fn as_unsigned_spec(v: PlistValue) -> Option<u64> {
    match v {
        PlistValue::UnsignedInteger(n) => Some(n),
        PlistValue::SignedInteger(n) => if n >= 0 {
            Some(n as u64)
        } else {
            None
        },
        _ => None,
    }
}

/// `v` as text, when it is a string.
pub open spec fn as_string_spec(v: PlistValue) -> Option<Seq<char>> {
    match v {
        PlistValue::String(s) => Some(s@),
        _ => None,
    }
}

/// `v` as bytes, when it is a data value.
pub open spec fn as_data_spec(v: PlistValue) -> Option<Seq<u8>> {
    match v {
        PlistValue::Data(d) => Some(d@),
        _ => None,
    }
}

/// `v` as a boolean, when it is one.
pub open spec fn as_boolean_spec(v: PlistValue) -> Option<bool> {
    match v {
        PlistValue::Boolean(b) => Some(b),
        _ => None,
    }
}

/// A dictionary entry's value as a flat message sees it.
pub enum FieldValue {
    Text(Seq<char>),
    Integer(int),
    Boolean(bool),
    Bytes(Seq<u8>),
    /// An array, a dictionary, or a value carried through unread.
    Compound,
}

/// The flat view of a value.
pub open spec fn field_value(v: PlistValue) -> FieldValue {
    match v {
        PlistValue::String(s) => FieldValue::Text(s@),
        PlistValue::UnsignedInteger(n) => FieldValue::Integer(n as int),
        PlistValue::SignedInteger(n) => FieldValue::Integer(n as int),
        PlistValue::Boolean(b) => FieldValue::Boolean(b),
        PlistValue::Data(d) => FieldValue::Bytes(d@),
        _ => FieldValue::Compound,
    }
}

/// Dictionary entries as (key text, flat value) pairs, in order.
pub open spec fn entries_view(e: Seq<(String, PlistValue)>) -> Seq<(Seq<char>, FieldValue)> {
    e.map_values(|p: (String, PlistValue)| (p.0@, field_value(p.1)))
}

/// Every value in the dictionary is a string, integer, boolean or data value.
pub open spec fn is_flat(e: Seq<(String, PlistValue)>) -> bool {
    forall|i: int| 0 <= i < e.len() ==> !(field_value(#[trigger] e[i].1) is Compound)
}

/// The XML document that `plist` writes for a dictionary of flat entries.
pub uninterp spec fn dictionary_xml(entries: Seq<(Seq<char>, FieldValue)>) -> Seq<u8>;

/// What `plist` reads from the XML document `b`, or `None` where it refuses it.
pub uninterp spec fn plist_from_xml(b: Seq<u8>) -> Option<PlistValue>;

/// Appends an entry with a string value.
pub fn push_text(e: &mut Vec<(String, PlistValue)>, key: &str, value: String)
    requires
        is_flat(old(e)@),
    ensures
        entries_view(final(e)@) == entries_view(old(e)@).push((key@, FieldValue::Text(value@))),
        is_flat(final(e)@),
{
    let k = key.to_owned();
    let ghost vv = value@;
    e.push((k, PlistValue::String(value)));
    assert(entries_view(e@) =~= entries_view(old(e)@).push((key@, FieldValue::Text(vv))));
}

/// Appends an entry with a non-negative integer value.
pub fn push_unsigned(e: &mut Vec<(String, PlistValue)>, key: &str, value: u64)
    requires
        is_flat(old(e)@),
    ensures
        entries_view(final(e)@) == entries_view(old(e)@).push(
            (key@, FieldValue::Integer(value as int)),
        ),
        is_flat(final(e)@),
{
    let k = key.to_owned();
    e.push((k, PlistValue::UnsignedInteger(value)));
    assert(entries_view(e@) =~= entries_view(old(e)@).push(
        (key@, FieldValue::Integer(value as int)),
    ));
}

/// Appends an entry with a signed integer value.
pub fn push_signed(e: &mut Vec<(String, PlistValue)>, key: &str, value: i64)
    requires
        is_flat(old(e)@),
    ensures
        entries_view(final(e)@) == entries_view(old(e)@).push(
            (key@, FieldValue::Integer(value as int)),
        ),
        is_flat(final(e)@),
{
    let k = key.to_owned();
    let v = if value >= 0 {
        PlistValue::UnsignedInteger(value as u64)
    } else {
        PlistValue::SignedInteger(value)
    };
    e.push((k, v));
    assert(entries_view(e@) =~= entries_view(old(e)@).push(
        (key@, FieldValue::Integer(value as int)),
    ));
}

/// The lookup finds the first entry with the key when no earlier one has it.
proof fn lemma_dict_get_at(entries: Seq<(String, PlistValue)>, key: Seq<char>, i: int)
    requires
        0 <= i < entries.len(),
        entries[i].0@ == key,
        forall|j: int| 0 <= j < i ==> entries[j].0@ != key,
    ensures
        dict_get(entries, key) == Some(entries[i].1),
    decreases i,
{
    if i > 0 {
        lemma_dict_get_at(entries.drop_first(), key, i - 1);
    }
}

/// The lookup finds nothing when no entry has the key.
proof fn lemma_dict_get_none(entries: Seq<(String, PlistValue)>, key: Seq<char>)
    requires
        forall|j: int| 0 <= j < entries.len() ==> entries[j].0@ != key,
    ensures
        dict_get(entries, key) is None,
    decreases entries.len(),
{
    if entries.len() > 0 {
        lemma_dict_get_none(entries.drop_first(), key);
    }
}

impl PlistValue {
    /// The value under `key`, when `self` is a dictionary that has that key.
    pub fn get(&self, key: &str) -> (r: Option<&PlistValue>)
        ensures
            r matches Some(x) ==> value_get(*self, key@) == Some(*x),
            r is None ==> value_get(*self, key@) is None,
    {
        match self {
            PlistValue::Dictionary(entries) => {
                let wanted = key.to_owned();
                let mut i: usize = 0;
                while i < entries.len()
                    invariant
                        i <= entries@.len(),
                        wanted@ == key@,
                        *self == PlistValue::Dictionary(*entries),
                        forall|j: int| 0 <= j < i ==> entries@[j].0@ != key@,
                    decreases entries.len() - i,
                {
                    if entries[i].0 == wanted {
                        proof {
                            lemma_dict_get_at(entries@, key@, i as int);
                        }
                        return Some(&entries[i].1);
                    }
                    i = i + 1;
                }
                proof {
                    lemma_dict_get_none(entries@, key@);
                }
                None
            },
            _ => None,
        }
    }

    /// The elements, when `self` is an array.
    pub fn as_array(&self) -> (r: Option<&Vec<PlistValue>>)
        ensures
            r matches Some(a) ==> *self == PlistValue::Array(*a),
            r is None ==> !(*self is Array),
    {
        match self {
            PlistValue::Array(a) => Some(a),
            _ => None,
        }
    }

    /// The value as a `u64`, when it is a non-negative integer.
    pub fn as_unsigned_integer(&self) -> (r: Option<u64>)
        ensures
            r == as_unsigned_spec(*self),
    {
        match self {
            PlistValue::UnsignedInteger(n) => Some(*n),
            PlistValue::SignedInteger(n) => if *n >= 0 {
                Some(*n as u64)
            } else {
                None
            },
            _ => None,
        }
    }

    /// The text, when `self` is a string.
    pub fn as_string(&self) -> (r: Option<&String>)
        ensures
            r matches Some(s) ==> as_string_spec(*self) == Some(s@),
            r is None ==> as_string_spec(*self) is None,
    {
        match self {
            PlistValue::String(s) => Some(s),
            _ => None,
        }
    }

    /// The bytes, when `self` is a data value.
    pub fn as_data(&self) -> (r: Option<&Vec<u8>>)
        ensures
            r matches Some(d) ==> as_data_spec(*self) == Some(d@),
            r is None ==> as_data_spec(*self) is None,
    {
        match self {
            PlistValue::Data(d) => Some(d),
            _ => None,
        }
    }

    /// The boolean, when `self` is one.
    pub fn as_boolean(&self) -> (r: Option<bool>)
        ensures
            r == as_boolean_spec(*self),
    {
        match self {
            PlistValue::Boolean(b) => Some(*b),
            _ => None,
        }
    }
}

/// Relies on `plist::Value::to_writer_xml`: the document written for a
/// dictionary of strings, integers, booleans and data depends on its keys and
/// those values alone, in order; writing it into a `Vec` does not fail, as
/// the XML writer fails only on I/O, UID values and malformed nesting.
#[verifier::external_body]
pub fn dictionary_to_xml(entries: &Vec<(String, PlistValue)>) -> (r: Result<Vec<u8>, ::plist::Error>)
    ensures
        is_flat(entries@) ==> r is Ok,
        is_flat(entries@) ==> (r matches Ok(b) ==> b@ == dictionary_xml(entries_view(entries@))),
{
    let dict = entries.iter().map(|(k, x)| (k.clone(), to_outside(x))).collect();
    let mut out = Vec::new();
    ::plist::Value::Dictionary(dict).to_writer_xml(&mut out)?;
    Ok(out)
}

/// Relies on `plist::Value::from_reader_xml`: whether a document is read, and
/// what is read from it, depends on its bytes alone.
#[verifier::external_body]
pub fn from_xml(b: &[u8]) -> (r: Result<PlistValue, ::plist::Error>)
    ensures
        r is Ok <==> plist_from_xml(b@) is Some,
        r matches Ok(v) ==> plist_from_xml(b@) == Some(v),
{
    ::plist::Value::from_reader_xml(b).map(from_outside)
}

/// Converts a value of the `plist` crate, variant for variant.
#[verifier::external_body]
fn from_outside(v: PlistCrateValue) -> PlistValue {
    match v {
        PlistCrateValue::Array(a) => PlistValue::Array(a.into_iter().map(from_outside).collect()),
        PlistCrateValue::Dictionary(d) => PlistValue::Dictionary(
            d.into_iter().map(|(k, x)| (k, from_outside(x))).collect(),
        ),
        PlistCrateValue::Boolean(b) => PlistValue::Boolean(b),
        PlistCrateValue::Data(d) => PlistValue::Data(d),
        PlistCrateValue::Integer(n) => match n.as_unsigned() {
            Some(u) => PlistValue::UnsignedInteger(u),
            None => PlistValue::SignedInteger(n.as_signed().unwrap_or_default()),
        },
        PlistCrateValue::String(s) => PlistValue::String(s),
        other => PlistValue::Other(other),
    }
}

/// Converts to a value of the `plist` crate, variant for variant.
#[verifier::external_body]
fn to_outside(v: &PlistValue) -> PlistCrateValue {
    match v {
        PlistValue::Array(a) => PlistCrateValue::Array(a.iter().map(to_outside).collect()),
        PlistValue::Dictionary(d) => PlistCrateValue::Dictionary(
            d.iter().map(|(k, x)| (k.clone(), to_outside(x))).collect(),
        ),
        PlistValue::Boolean(b) => PlistCrateValue::Boolean(*b),
        PlistValue::Data(d) => PlistCrateValue::Data(d.clone()),
        PlistValue::UnsignedInteger(n) => PlistCrateValue::Integer((*n).into()),
        PlistValue::SignedInteger(n) => PlistCrateValue::Integer((*n).into()),
        PlistValue::String(s) => PlistCrateValue::String(s.clone()),
        PlistValue::Other(x) => x.clone(),
    }
}

} // verus!
