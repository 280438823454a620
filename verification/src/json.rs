//! JSON documents, built and written by `serde_json`.
//!
//! The functions of this module hand values to `serde_json` and say what
//! comes back; none of them is proved. What the rest of the crate proves
//! about a document, it proves from these statements.

use vstd::prelude::*;

verus! {

/// The content of a JSON document.
pub enum Json {
    Null,
    Bool(bool),
    /// A number that a `u64` holds.
    Number(u64),
    /// Any other number, by the text that stands for it.
    OtherNumber(Seq<char>),
    String(Seq<char>),
    Array(Seq<Json>),
    Object(Map<Seq<char>, Json>),
}

/// Makes `serde_json::Value` known as a type. What a value holds is
/// `json_model`.
#[verifier::external_type_specification]
#[verifier::external_body]
pub struct ExJsonValue(serde_json::Value);

/// Makes `serde_json::Map` known as a type. What a map from text to values
/// holds is `json_members`.
#[verifier::external_type_specification]
#[verifier::external_body]
#[verifier::reject_recursive_types(K)]
#[verifier::reject_recursive_types(V)]
pub struct ExJsonMap<K, V>(serde_json::Map<K, V>);

/// Makes `serde_json::Error` known as a type. Nothing is said of its values.
#[verifier::external_type_specification]
#[verifier::external_body]
pub struct ExJsonError(serde_json::Error);

/// The members of a JSON object, as `serde_json` holds them.
pub type JsonMembers = serde_json::Map<String, serde_json::Value>;

/// The members of an object without members.
pub open spec fn no_members() -> Map<Seq<char>, Json> {
    Map::empty()
}

/// The document that a `serde_json::Value` holds.
pub uninterp spec fn json_model(value: serde_json::Value) -> Json;

/// The members that a `serde_json::Map` holds, by key.
pub uninterp spec fn json_members(members: JsonMembers) -> Map<Seq<char>, Json>;

/// The bytes that `serde_json::to_vec` writes for a document, or nothing
/// where it reports an error. `serde_json` is built without its feature
/// `preserve_order` here, so it writes the members of an object by the order
/// of their keys and not by the order in which they came.
pub uninterp spec fn json_bytes(document: Json) -> Option<Seq<u8>>;

/// The documents that `values` hold, in order.
pub open spec fn models_of(values: Seq<serde_json::Value>) -> Seq<Json> {
    values.map_values(|value: serde_json::Value| json_model(value))
}

/// `serde_json::Value::Null`, which holds `null`.
#[verifier::external_body]
pub(crate) fn json_null() -> (value: serde_json::Value)
    ensures
        json_model(value) == Json::Null,
{
    serde_json::Value::Null
}

/// `serde_json::Value::String` of a copy of `text`, which holds that text.
#[verifier::external_body]
pub(crate) fn json_string(text: &str) -> (value: serde_json::Value)
    ensures
        json_model(value) == Json::String(text@),
{
    serde_json::Value::String(text.to_owned())
}

/// `serde_json::Value::from` of a `u64`, which holds that number.
#[verifier::external_body]
pub(crate) fn json_number(number: u64) -> (value: serde_json::Value)
    ensures
        json_model(value) == Json::Number(number),
{
    serde_json::Value::from(number)
}

/// `serde_json::Value::Array`, which holds the documents of `items` in
/// order.
#[verifier::external_body]
pub(crate) fn json_array(items: Vec<serde_json::Value>) -> (value: serde_json::Value)
    ensures
        json_model(value) == Json::Array(models_of(items@)),
{
    serde_json::Value::Array(items)
}

/// `serde_json::Map::new`, which holds no member.
#[verifier::external_body]
pub(crate) fn json_members_new() -> (members: JsonMembers)
    ensures
        json_members(members) == no_members(),
{
    serde_json::Map::new()
}

/// `serde_json::Map::insert` of a copy of `key`: the map then holds `value`
/// under `key`, in place of what it held there, and its other members as
/// before.
#[verifier::external_body]
pub(crate) fn json_members_insert(members: &mut JsonMembers, key: &str, value: serde_json::Value)
    ensures
        json_members(*final(members)) == json_members(*old(members)).insert(
            key@,
            json_model(value),
        ),
{
    members.insert(key.to_owned(), value);
}

/// `serde_json::Value::Object`, which holds the members of `members`.
#[verifier::external_body]
pub(crate) fn json_object(members: JsonMembers) -> (value: serde_json::Value)
    ensures
        json_model(value) == Json::Object(json_members(members)),
{
    serde_json::Value::Object(members)
}

/// `serde_json::to_vec` on a value: the bytes are those of the document that
/// the value holds.
#[verifier::external_body]
pub(crate) fn json_to_vec(value: &serde_json::Value) -> (written: Result<Vec<u8>, serde_json::Error>)
    ensures
        match written {
            Ok(bytes) => json_bytes(json_model(*value)) == Some(bytes@),
            Err(_) => json_bytes(json_model(*value)) is None,
        },
{
    serde_json::to_vec(value)
}

} // verus!
