//! JSON documents, as `serde_json` holds them.
//!
//! A `serde_json::Value` is opaque to the verifier. The library reads and
//! builds such values through the functions of this module, each of which
//! makes one call into `serde_json`; what the call does is stated over
//! [`json_model`], the tree of plain values that a document stands for.

use vstd::prelude::*;

verus! {

/// `serde_json::Value`, a JSON document: opaque to the verifier, known
/// by [`json_model`] alone.
#[verifier::external_type_specification]
#[verifier::external_body]
pub struct ExJsonValue(serde_json::Value);

/// `serde_json::Error`, why a text is no JSON document: opaque to the
/// verifier.
#[verifier::external_type_specification]
#[verifier::external_body]
pub struct ExJsonError(serde_json::Error);

/// What a JSON document holds. Numbers are not told apart: nothing in
/// this library reads one.
pub enum JsonModel {
    Null,
    Bool(bool),
    Number,
    Text(Seq<char>),
    Array(Seq<JsonModel>),
    Object(Map<Seq<char>, JsonModel>),
}

/// The contents of a `serde_json::Value`.
pub uninterp spec fn json_model(v: serde_json::Value) -> JsonModel;

/// The document that a text denotes, if it is well-formed JSON.
pub uninterp spec fn parsed_json(text: Seq<char>) -> Option<JsonModel>;

/// The contents of each value of a sequence.
pub open spec fn json_models(values: Seq<serde_json::Value>) -> Seq<JsonModel> {
    values.map_values(|v: serde_json::Value| json_model(v))
}

impl JsonModel {
    /// The member `key` of an object; `None` for a missing key and for
    /// anything that is not an object.
    pub open spec fn member(self, key: Seq<char>) -> Option<JsonModel> {
        match self {
            JsonModel::Object(members) => if members.contains_key(key) {
                Some(members[key])
            } else {
                None
            },
            _ => None,
        }
    }

    /// The element at `index` of an array; `None` out of bounds and for
    /// anything that is not an array.
    pub open spec fn element(self, index: int) -> Option<JsonModel> {
        match self {
            JsonModel::Array(items) => if 0 <= index < items.len() {
                Some(items[index])
            } else {
                None
            },
            _ => None,
        }
    }

    /// [`JsonModel::member`], with `Null` standing for an absent member.
    pub open spec fn field(self, key: Seq<char>) -> JsonModel {
        match self.member(key) {
            Some(m) => m,
            None => JsonModel::Null,
        }
    }

    /// [`JsonModel::element`], with `Null` standing for an absent element.
    pub open spec fn item(self, index: int) -> JsonModel {
        match self.element(index) {
            Some(m) => m,
            None => JsonModel::Null,
        }
    }

    /// The text of a string value.
    pub open spec fn text(self) -> Option<Seq<char>> {
        match self {
            JsonModel::Text(s) => Some(s),
            _ => None,
        }
    }

    /// The elements of an array value.
    pub open spec fn items(self) -> Option<Seq<JsonModel>> {
        match self {
            JsonModel::Array(items) => Some(items),
            _ => None,
        }
    }

    /// An object with the member `key` set to `value`.
    pub open spec fn with(self, key: Seq<char>, value: JsonModel) -> JsonModel
        recommends
            self is Object,
    {
        JsonModel::Object(self->Object_0.insert(key, value))
    }

    /// The object without members.
    pub open spec fn empty_object() -> JsonModel {
        JsonModel::Object(Map::empty())
    }
}

/// Calls `Value::get` with a key: the member of that name where the value
/// is an object that has it, `None` otherwise.
#[verifier::external_body]
pub(crate) fn json_get<'a>(v: &'a serde_json::Value, key: &str) -> (r: Option<
    &'a serde_json::Value,
>)
    ensures
        match r {
            Some(m) => json_model(*v).member(key@) == Some(json_model(*m)),
            None => json_model(*v).member(key@) is None,
        },
{
    v.get(key)
}

/// Indexes a value with a key (`v[key]`): the member of that name, or a
/// null value where `v` is no object or has no such member.
#[verifier::external_body]
pub(crate) fn json_field<'a>(v: &'a serde_json::Value, key: &str) -> (r: &'a serde_json::Value)
    ensures
        json_model(*r) == json_model(*v).field(key@),
{
    &v[key]
}

/// Indexes a value with a position (`v[index]`): the element there, or a
/// null value where `v` is no array or is shorter.
#[verifier::external_body]
pub(crate) fn json_item<'a>(v: &'a serde_json::Value, index: usize) -> (r: &'a serde_json::Value)
    ensures
        json_model(*r) == json_model(*v).item(index as int),
{
    &v[index]
}

/// Calls `Value::as_str`: the text where the value is a string.
#[verifier::external_body]
pub(crate) fn json_as_str<'a>(v: &'a serde_json::Value) -> (r: Option<&'a str>)
    ensures
        match r {
            Some(s) => json_model(*v).text() == Some(s@),
            None => json_model(*v).text() is None,
        },
{
    v.as_str()
}

/// Calls `Value::as_array`: the elements where the value is an array.
#[verifier::external_body]
pub(crate) fn json_as_array<'a>(v: &'a serde_json::Value) -> (r: Option<&'a Vec<serde_json::Value>>)
    ensures
        match r {
            Some(items) => json_model(*v).items() == Some(json_models(items@)),
            None => json_model(*v).items() is None,
        },
{
    v.as_array()
}

/// Builds `Value::String` from a text.
#[verifier::external_body]
pub(crate) fn json_text(s: &str) -> (r: serde_json::Value)
    ensures
        json_model(r) == JsonModel::Text(s@),
{
    serde_json::Value::String(s.to_string())
}

/// Builds `Value::Array` from its elements.
#[verifier::external_body]
pub(crate) fn json_array(items: Vec<serde_json::Value>) -> (r: serde_json::Value)
    ensures
        json_model(r) == JsonModel::Array(json_models(items@)),
{
    serde_json::Value::Array(items)
}

/// Builds `Value::Object` from an empty `serde_json::Map`.
#[verifier::external_body]
pub(crate) fn json_object() -> (r: serde_json::Value)
    ensures
        json_model(r) == JsonModel::empty_object(),
{
    serde_json::Value::Object(serde_json::Map::new())
}

/// Assigns through a key index (`obj[key] = value`): on an object this
/// sets the member, replacing one of the same name. On anything but an
/// object or null the index panics.
#[verifier::external_body]
pub(crate) fn json_set(obj: &mut serde_json::Value, key: &str, value: serde_json::Value)
    requires
        json_model(*old(obj)) is Object,
    ensures
        json_model(*final(obj)) == json_model(*old(obj)).with(key@, json_model(value)),
{
    obj[key] = value;
}

/// Calls `serde_json::from_str` for a `Value`: the document that the text
/// denotes, or the parser's error.
#[verifier::external_body]
pub(crate) fn json_parse(text: &str) -> (r: Result<serde_json::Value, serde_json::Error>)
    ensures
        match r {
            Ok(v) => parsed_json(text@) == Some(json_model(v)),
            Err(_) => parsed_json(text@) is None,
        },
{
    serde_json::from_str::<serde_json::Value>(text)
}

/// Formats a parser error with `{}`.
#[verifier::external_body]
pub(crate) fn json_error_text(e: &serde_json::Error) -> (r: String) {
    format!("{}", e)
}

} // verus!
