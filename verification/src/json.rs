//! JSON documents: a mathematical model of a document, and the operations of
//! `serde_json` that the rest of the library is built on.
//!
//! Everything in this file that carries `external_body` is a statement about
//! `serde_json` that is taken on trust; the doc comment of each one names the
//! function it stands for.

use vstd::prelude::*;

verus! {

/// A JSON document as a mathematical value.
pub ghost enum JsonV {
    Null,
    Bool(bool),
    /// An integer number.
    Int(int),
    /// A number that is not an integer, identified by its binary encoding.
    Real(int),
    Str(Seq<char>),
    Array(Seq<JsonV>),
    Object(Map<Seq<char>, JsonV>),
}

impl JsonV {
    /// The member `key` of an object; `None` for a missing member and for a
    /// document that is not an object.
    pub open spec fn member(self, key: Seq<char>) -> Option<JsonV> {
        match self {
            JsonV::Object(m) if m.contains_key(key) => Some(m[key]),
            _ => None,
        }
    }

    /// The member `key`, where a missing member and `null` are the same.
    pub open spec fn optional_member(self, key: Seq<char>) -> Option<JsonV> {
        match self.member(key) {
            Some(JsonV::Null) => None,
            other => other,
        }
    }

    /// The text of a string document.
    pub open spec fn text(self) -> Option<Seq<char>> {
        match self {
            JsonV::Str(s) => Some(s),
            _ => None,
        }
    }

    /// The number of an integer document that fits `u64`.
    pub open spec fn unsigned(self) -> Option<u64> {
        match self {
            JsonV::Int(n) if 0 <= n <= u64::MAX => Some(n as u64),
            _ => None,
        }
    }

    /// The number of an integer document that fits `i64`.
    pub open spec fn signed(self) -> Option<i64> {
        match self {
            JsonV::Int(n) if i64::MIN <= n <= i64::MAX => Some(n as i64),
            _ => None,
        }
    }

    /// The value of a boolean document.
    pub open spec fn boolean(self) -> Option<bool> {
        match self {
            JsonV::Bool(b) => Some(b),
            _ => None,
        }
    }

    /// The items of an array document.
    pub open spec fn items(self) -> Option<Seq<JsonV>> {
        match self {
            JsonV::Array(a) => Some(a),
            _ => None,
        }
    }

    /// The text of the string member `key`.
    pub open spec fn text_member(self, key: Seq<char>) -> Option<Seq<char>> {
        match self.member(key) {
            Some(item) => item.text(),
            None => None,
        }
    }

    /// The number of the integer member `key` that fits `u64`.
    pub open spec fn unsigned_member(self, key: Seq<char>) -> Option<u64> {
        match self.member(key) {
            Some(item) => item.unsigned(),
            None => None,
        }
    }

    /// The number of the integer member `key` that fits `i64`.
    pub open spec fn signed_member(self, key: Seq<char>) -> Option<i64> {
        match self.member(key) {
            Some(item) => item.signed(),
            None => None,
        }
    }

    /// The text of the member `key`, which may be missing or `null`: the
    /// outer `None` is for a member of another type.
    pub open spec fn optional_text(self, key: Seq<char>) -> Option<Option<Seq<char>>> {
        match self.optional_member(key) {
            None => Some(None),
            Some(JsonV::Str(s)) => Some(Some(s)),
            Some(_) => None,
        }
    }

    /// The value of the boolean member `key`, which may be missing or `null`:
    /// the outer `None` is for a member of another type.
    pub open spec fn optional_boolean(self, key: Seq<char>) -> Option<Option<bool>> {
        match self.optional_member(key) {
            None => Some(None),
            Some(JsonV::Bool(b)) => Some(Some(b)),
            Some(_) => None,
        }
    }

    /// The JSON form of a text that may be missing: `null` in its place.
    pub open spec fn from_optional_text(text: Option<Seq<char>>) -> JsonV {
        match text {
            Some(s) => JsonV::Str(s),
            None => JsonV::Null,
        }
    }

    /// The JSON form of a boolean that may be missing: `null` in its place.
    pub open spec fn from_optional_boolean(b: Option<bool>) -> JsonV {
        match b {
            Some(b) => JsonV::Bool(b),
            None => JsonV::Null,
        }
    }

    /// The object with no members.
    pub open spec fn empty_object() -> JsonV {
        JsonV::Object(Map::empty())
    }

    /// This object with the member `key` set to `item`.
    pub open spec fn with(self, key: Seq<char>, item: JsonV) -> JsonV
        recommends
            self is Object,
    {
        JsonV::Object(self->Object_0.insert(key, item))
    }

    /// This object without the member `key`.
    pub open spec fn without(self, key: Seq<char>) -> JsonV
        recommends
            self is Object,
    {
        JsonV::Object(self->Object_0.remove(key))
    }
}

/// `serde_json::Value`, a JSON document in memory. What is inside is known
/// only through the functions below.
#[verifier::external_type_specification]
#[verifier::external_body]
pub struct ExValue(serde_json::Value);

/// `serde_json::Error`, what reading and writing fail with. It is carried,
/// never looked into.
#[verifier::external_type_specification]
#[verifier::external_body]
pub struct ExJsonError(serde_json::Error);

/// The document that a `serde_json::Value` holds.
pub uninterp spec fn value_model(v: serde_json::Value) -> JsonV;

/// The document that `serde_json::from_slice` reads from a text, `None` where
/// it rejects the text.
pub uninterp spec fn json_parse(text: Seq<u8>) -> Option<JsonV>;

/// The text that `serde_json::to_vec` writes for a document.
pub uninterp spec fn json_text(doc: JsonV) -> Seq<u8>;

/// The documents of a sequence of values, item by item.
pub open spec fn models(items: Seq<serde_json::Value>) -> Seq<JsonV> {
    Seq::new(items.len(), |i: int| value_model(items[i]))
}

/// `serde_json::from_slice` at type `Value`: the value read holds the
/// document named by `json_parse`, and an error comes exactly where that is
/// `None`.
#[verifier::external_body]
pub(crate) fn parse_value(text: &[u8]) -> (r: Result<serde_json::Value, serde_json::Error>)
    ensures
        match r {
            Ok(v) => json_parse(text@) == Some(value_model(v)),
            Err(_) => json_parse(text@) is None,
        },
{
    serde_json::from_slice::<serde_json::Value>(text)
}

/// `serde_json::to_vec` on a `Value`: it succeeds, and the bytes are the text
/// named by `json_text` for the document held. Writing a `Value` fails only
/// where the writer fails, and the writer here is a vector.
#[verifier::external_body]
pub(crate) fn write_value(v: &serde_json::Value) -> (r: Result<Vec<u8>, serde_json::Error>)
    ensures
        match r {
            Ok(bytes) => bytes@ == json_text(value_model(*v)),
            Err(_) => false,
        },
{
    serde_json::to_vec(v)
}

/// The JSON text of the document that `v` holds. Writing into memory does not
/// fail.
pub fn to_text(v: &serde_json::Value) -> (r: Vec<u8>)
    ensures
        r@ == json_text(value_model(*v)),
{
    match write_value(v) {
        Ok(bytes) => bytes,
        Err(_) => vstd::pervasive::unreached(),
    }
}

/// `Value::get` with a string key: the member of an object, `None` for a
/// missing member and for a value that is not an object.
#[verifier::external_body]
pub(crate) fn value_get<'a>(v: &'a serde_json::Value, key: &str) -> (r: Option<&'a serde_json::Value>)
    ensures
        match r {
            Some(item) => value_model(*v).member(key@) == Some(value_model(*item)),
            None => value_model(*v).member(key@) is None,
        },
{
    v.get(key)
}

/// `Value::as_str`: the text of a string value.
#[verifier::external_body]
pub(crate) fn value_as_str<'a>(v: &'a serde_json::Value) -> (r: Option<&'a str>)
    ensures
        match r {
            Some(s) => value_model(*v).text() == Some(s@),
            None => value_model(*v).text() is None,
        },
{
    v.as_str()
}

/// `Value::as_u64`: the number, where the value is an integer that fits `u64`.
#[verifier::external_body]
pub(crate) fn value_as_u64(v: &serde_json::Value) -> (r: Option<u64>)
    ensures
        r == value_model(*v).unsigned(),
{
    v.as_u64()
}

/// `Value::as_i64`: the number, where the value is an integer that fits `i64`.
#[verifier::external_body]
pub(crate) fn value_as_i64(v: &serde_json::Value) -> (r: Option<i64>)
    ensures
        r == value_model(*v).signed(),
{
    v.as_i64()
}

/// `Value::as_bool`: the value of a boolean.
#[verifier::external_body]
pub(crate) fn value_as_bool(v: &serde_json::Value) -> (r: Option<bool>)
    ensures
        r == value_model(*v).boolean(),
{
    v.as_bool()
}

/// `Value::is_null`.
#[verifier::external_body]
pub(crate) fn value_is_null(v: &serde_json::Value) -> (r: bool)
    ensures
        r == (value_model(*v) is Null),
{
    v.is_null()
}

/// `Value::is_object`.
#[verifier::external_body]
pub(crate) fn value_is_object(v: &serde_json::Value) -> (r: bool)
    ensures
        r == (value_model(*v) is Object),
{
    v.is_object()
}

/// `Value::as_array`: the items of an array value, in order.
#[verifier::external_body]
pub(crate) fn value_as_array<'a>(v: &'a serde_json::Value) -> (r: Option<&'a Vec<serde_json::Value>>)
    ensures
        match r {
            Some(items) => value_model(*v).items() == Some(models(items@)),
            None => value_model(*v).items() is None,
        },
{
    v.as_array()
}

/// `Value::clone`: the copy holds the same document.
pub assume_specification[ <serde_json::Value as Clone>::clone ](
    v: &serde_json::Value,
) -> (r: serde_json::Value)
    ensures
        value_model(r) == value_model(*v),
;

/// The variant `Value::Null`.
#[verifier::external_body]
pub(crate) fn value_null() -> (r: serde_json::Value)
    ensures
        value_model(r) == JsonV::Null,
{
    serde_json::Value::Null
}

/// The variant `Value::Bool`.
#[verifier::external_body]
pub(crate) fn value_bool(b: bool) -> (r: serde_json::Value)
    ensures
        value_model(r) == JsonV::Bool(b),
{
    serde_json::Value::Bool(b)
}

/// `Value::from` on a `u64`: the integer itself.
#[verifier::external_body]
pub(crate) fn value_u64(n: u64) -> (r: serde_json::Value)
    ensures
        value_model(r) == JsonV::Int(n as int),
{
    serde_json::Value::from(n)
}

/// `Value::from` on an `i64`: the integer itself.
#[verifier::external_body]
pub(crate) fn value_i64(n: i64) -> (r: serde_json::Value)
    ensures
        value_model(r) == JsonV::Int(n as int),
{
    serde_json::Value::from(n)
}

/// `Value::from` on a `&str`: a string value with that text.
#[verifier::external_body]
pub(crate) fn value_string(s: &str) -> (r: serde_json::Value)
    ensures
        value_model(r) == JsonV::Str(s@),
{
    serde_json::Value::from(s)
}

/// The variant `Value::Array`: an array value with these items, in order.
#[verifier::external_body]
pub(crate) fn value_array(items: Vec<serde_json::Value>) -> (r: serde_json::Value)
    ensures
        value_model(r) == JsonV::Array(models(items@)),
{
    serde_json::Value::Array(items)
}

/// The variant `Value::Object` around `Map::new`: an object with no members.
#[verifier::external_body]
pub(crate) fn value_object() -> (r: serde_json::Value)
    ensures
        value_model(r) == JsonV::empty_object(),
{
    serde_json::Value::Object(serde_json::Map::new())
}

/// `Map::insert` on the map of an object value: the member is set, replacing
/// an earlier member of that name; the other members stay.
#[verifier::external_body]
pub(crate) fn value_insert(obj: &mut serde_json::Value, key: &str, item: serde_json::Value)
    requires
        value_model(*old(obj)) is Object,
    ensures
        value_model(*final(obj)) == value_model(*old(obj)).with(key@, value_model(item)),
{
    if let serde_json::Value::Object(members) = obj {
        members.insert(key.to_owned(), item);
    }
}

/// `Map::remove` on the map of an object value: the member of that name
/// leaves, if there is one; the other members stay.
#[verifier::external_body]
pub(crate) fn value_remove(obj: &mut serde_json::Value, key: &str)
    requires
        value_model(*old(obj)) is Object,
    ensures
        value_model(*final(obj)) == value_model(*old(obj)).without(key@),
{
    if let serde_json::Value::Object(members) = obj {
        members.remove(key);
    }
}

/// The member `key` of `v`, where a missing member and `null` are the same.
pub fn get_optional<'a>(v: &'a serde_json::Value, key: &str) -> (r: Option<&'a serde_json::Value>)
    ensures
        match r {
            Some(item) => value_model(*v).optional_member(key@) == Some(value_model(*item)),
            None => value_model(*v).optional_member(key@) is None,
        },
{
    match value_get(v, key) {
        Some(item) => if value_is_null(item) {
            None
        } else {
            Some(item)
        },
        None => None,
    }
}

/// The text of the string member `key` of `v`.
pub fn get_str<'a>(v: &'a serde_json::Value, key: &str) -> (r: Option<&'a str>)
    ensures
        match r {
            Some(s) => value_model(*v).text_member(key@) == Some(s@),
            None => value_model(*v).text_member(key@) is None,
        },
{
    match value_get(v, key) {
        Some(item) => value_as_str(item),
        None => None,
    }
}

/// The number of the integer member `key` of `v` that fits `u64`.
pub fn get_u64(v: &serde_json::Value, key: &str) -> (r: Option<u64>)
    ensures
        r == value_model(*v).unsigned_member(key@),
{
    match value_get(v, key) {
        Some(item) => value_as_u64(item),
        None => None,
    }
}

/// The number of the integer member `key` of `v` that fits `i64`.
pub fn get_i64(v: &serde_json::Value, key: &str) -> (r: Option<i64>)
    ensures
        r == value_model(*v).signed_member(key@),
{
    match value_get(v, key) {
        Some(item) => value_as_i64(item),
        None => None,
    }
}

/// The text of the member `key` of `v`, which may be missing or `null`; the
/// outer `None` is for a member of another type.
pub fn get_optional_str<'a>(v: &'a serde_json::Value, key: &str) -> (r: Option<Option<&'a str>>)
    ensures
        match r {
            Some(Some(s)) => value_model(*v).optional_text(key@) == Some(Some(s@)),
            Some(None) => value_model(*v).optional_text(key@) == Some(None::<Seq<char>>),
            None => value_model(*v).optional_text(key@) is None,
        },
{
    match get_optional(v, key) {
        None => Some(None),
        Some(item) => match value_as_str(item) {
            Some(s) => Some(Some(s)),
            None => None,
        },
    }
}

/// The value of the boolean member `key` of `v`, which may be missing or
/// `null`; the outer `None` is for a member of another type.
pub fn get_optional_bool(v: &serde_json::Value, key: &str) -> (r: Option<Option<bool>>)
    ensures
        r == value_model(*v).optional_boolean(key@),
{
    match get_optional(v, key) {
        None => Some(None),
        Some(item) => match value_as_bool(item) {
            Some(b) => Some(Some(b)),
            None => None,
        },
    }
}

/// The JSON form of a text that may be missing.
pub fn optional_str_value(text: &Option<String>) -> (r: serde_json::Value)
    ensures
        value_model(r) == JsonV::from_optional_text(
            match text {
                Some(s) => Some(s@),
                None => None,
            },
        ),
{
    match text {
        Some(s) => value_string(s.as_str()),
        None => value_null(),
    }
}

/// The JSON form of a boolean that may be missing.
pub fn optional_bool_value(b: Option<bool>) -> (r: serde_json::Value)
    ensures
        value_model(r) == JsonV::from_optional_boolean(b),
{
    match b {
        Some(b) => value_bool(b),
        None => value_null(),
    }
}

} // verus!
