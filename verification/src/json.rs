use vstd::prelude::*;

verus! {

/// `serde_json::Value`, a JSON document in memory. The verifier does not
/// look inside: what a document holds is told by `json_view`.
#[verifier::external_type_specification]
#[verifier::external_body]
pub struct ExJsonValue(serde_json::Value);

/// `serde_json::Error`, the reason why a text was not read.
#[verifier::external_type_specification]
#[verifier::external_body]
pub struct ExJsonError(serde_json::Error);

/// A JSON document as a mathematical value.
pub enum Json {
    Null,
    Bool(bool),
    /// A number that is held as an integer: one that was written without
    /// fraction and exponent and lies between the least `i64` and the
    /// greatest `u64`.
    Integer(int),
    /// Any other number, in the decimal form in which it is written out.
    Fraction(Seq<char>),
    Text(Seq<char>),
    Array(Seq<Json>),
    /// The members of an object by their keys. The order in which they were
    /// written is not kept.
    Object(Map<Seq<char>, Json>),
}

impl Json {
    /// The member under `key`: `None` for a value that is no object and for
    /// an object without such a member.
    pub open spec fn member(self, key: Seq<char>) -> Option<Json> {
        match self {
            Json::Object(members) => if members.contains_key(key) {
                Some(members[key])
            } else {
                None
            },
            _ => None,
        }
    }

    /// The value as an `i64`: `None` for a value that is no integer and for
    /// an integer beyond the greatest `i64`.
    pub open spec fn as_i64(self) -> Option<i64> {
        match self {
            Json::Integer(i) => if i64::MIN <= i <= i64::MAX {
                Some(i as i64)
            } else {
                None
            },
            _ => None,
        }
    }

    /// The text of a string: `None` for a value that is no string.
    pub open spec fn as_str(self) -> Option<Seq<char>> {
        match self {
            Json::Text(text) => Some(text),
            _ => None,
        }
    }

    /// The elements of an array: `None` for a value that is no array.
    pub open spec fn as_array(self) -> Option<Seq<Json>> {
        match self {
            Json::Array(items) => Some(items),
            _ => None,
        }
    }

    /// The integer under `key`: `None` where the value is no object, has no
    /// such member, or the member is no integer that fits `i64`.
    pub open spec fn integer(self, key: Seq<char>) -> Option<i64> {
        match self.member(key) {
            Some(m) => m.as_i64(),
            None => None,
        }
    }

    /// The text under `key`: `None` where the value is no object, has no
    /// such member, or the member is no string.
    pub open spec fn text(self, key: Seq<char>) -> Option<Seq<char>> {
        match self.member(key) {
            Some(m) => m.as_str(),
            None => None,
        }
    }

    /// The elements of the array under `key`: `None` where the value is no
    /// object, has no such member, or the member is no array.
    pub open spec fn array(self, key: Seq<char>) -> Option<Seq<Json>> {
        match self.member(key) {
            Some(m) => m.as_array(),
            None => None,
        }
    }
}

/// What a `serde_json::Value` holds.
pub uninterp spec fn json_view(value: serde_json::Value) -> Json;

/// The document that `serde_json::from_str` reads out of a text, if it reads
/// one.
pub uninterp spec fn json_parsed(text: Seq<char>) -> Option<Json>;

/// What each of a list of values holds.
pub open spec fn json_views(values: Seq<serde_json::Value>) -> Seq<Json> {
    values.map_values(|v: serde_json::Value| json_view(v))
}

/// The texts of a list of values that are all strings: `None` where one of
/// them is no string.
pub open spec fn strings_of(items: Seq<Json>) -> Option<Seq<Seq<char>>>
    decreases items.len(),
{
    if items.len() == 0 {
        Some(Seq::empty())
    } else {
        match (strings_of(items.drop_last()), items.last().as_str()) {
            (Some(head), Some(last)) => Some(head.push(last)),
            _ => None,
        }
    }
}

/// Calls `serde_json::from_str` for a `serde_json::Value`. The contract names
/// the document that is read and says nothing of what a given text holds.
#[verifier::external_body]
pub(crate) fn parse(text: &str) -> (r: Result<serde_json::Value, serde_json::Error>)
    ensures
        r is Ok <==> json_parsed(text@) is Some,
        r matches Ok(doc) ==> json_parsed(text@) == Some(json_view(doc)),
{
    serde_json::from_str::<serde_json::Value>(text)
}

/// Calls `serde_json::Value::get` with a string key: the member of an object
/// under that key.
#[verifier::external_body]
pub(crate) fn member<'a>(value: &'a serde_json::Value, key: &str) -> (r: Option<
    &'a serde_json::Value,
>)
    ensures
        r is Some <==> json_view(*value).member(key@) is Some,
        r matches Some(m) ==> json_view(*value).member(key@) == Some(json_view(*m)),
{
    value.get(key)
}

/// Calls `serde_json::Value::as_i64`: the value of a number that is an
/// integer and fits.
#[verifier::external_body]
pub(crate) fn as_i64(value: &serde_json::Value) -> (r: Option<i64>)
    ensures
        r == json_view(*value).as_i64(),
{
    value.as_i64()
}

/// Calls `serde_json::Value::as_str`: the text of a string.
#[verifier::external_body]
pub(crate) fn as_str<'a>(value: &'a serde_json::Value) -> (r: Option<&'a str>)
    ensures
        r is Some <==> json_view(*value).as_str() is Some,
        r matches Some(s) ==> json_view(*value).as_str() == Some(s@),
{
    value.as_str()
}

/// Calls `serde_json::Value::as_array`: the elements of an array.
#[verifier::external_body]
pub(crate) fn as_array<'a>(value: &'a serde_json::Value) -> (r: Option<
    &'a Vec<serde_json::Value>,
>)
    ensures
        r is Some <==> json_view(*value).as_array() is Some,
        r matches Some(items) ==> json_view(*value).as_array() == Some(json_views(items@)),
{
    value.as_array()
}

/// Reads the integer member `key` of `value`.
pub fn read_integer(value: &serde_json::Value, key: &str) -> (r: Option<i64>)
    ensures
        r == json_view(*value).integer(key@),
{
    match member(value, key) {
        Some(m) => as_i64(m),
        None => None,
    }
}

/// Reads the string member `key` of `value`.
pub fn read_text<'a>(value: &'a serde_json::Value, key: &str) -> (r: Option<&'a str>)
    ensures
        r is Some <==> json_view(*value).text(key@) is Some,
        r matches Some(s) ==> json_view(*value).text(key@) == Some(s@),
{
    match member(value, key) {
        Some(m) => as_str(m),
        None => None,
    }
}

/// Reads the array member `key` of `value`.
pub fn read_array<'a>(value: &'a serde_json::Value, key: &str) -> (r: Option<
    &'a Vec<serde_json::Value>,
>)
    ensures
        r is Some <==> json_view(*value).array(key@) is Some,
        r matches Some(items) ==> json_view(*value).array(key@) == Some(json_views(items@)),
{
    match member(value, key) {
        Some(m) => as_array(m),
        None => None,
    }
}

} // verus!
