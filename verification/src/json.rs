//! JSON objects, as `serde_json` holds them.

use vstd::prelude::*;

verus! {

/// `serde_json::Map`, the members of a JSON object.
#[verifier::external_type_specification]
#[verifier::external_body]
#[verifier::reject_recursive_types(K)]
#[verifier::reject_recursive_types(V)]
pub struct ExJsonMap<K, V>(serde_json::Map<K, V>);

/// `serde_json::Value`, any JSON value.
#[verifier::external_type_specification]
#[verifier::external_body]
pub struct ExJsonValue(serde_json::Value);

/// What a JSON value says, for the kinds of value that this library writes.
pub enum Json {
    Text(Seq<char>),
    Number(nat),
    Object(Map<Seq<char>, Json>),
}

/// The members of `{}`.
pub open spec fn no_members() -> Map<Seq<char>, Json> {
    Map::empty()
}

/// The members of a JSON object, by name.
pub uninterp spec fn members(object: serde_json::Map<String, serde_json::Value>) -> Map<Seq<char>, Json>;

/// A value on its way into a JSON object.
pub enum Member {
    Text(String),
    Number(u64),
    Object(serde_json::Map<String, serde_json::Value>),
}

impl View for Member {
    type V = Json;

    open spec fn view(&self) -> Json {
        match *self {
            Member::Text(text) => Json::Text(text@),
            Member::Number(number) => Json::Number(number as nat),
            Member::Object(object) => Json::Object(members(object)),
        }
    }
}

/// Calls `serde_json::Map::new`: the object has no members.
#[verifier::external_body]
pub(crate) fn empty_object() -> (object: serde_json::Map<String, serde_json::Value>)
    ensures
        members(object) == no_members(),
{
    serde_json::Map::new()
}

/// Calls `serde_json::Map::insert`: `name` now stands for `member`, whether or not it stood
/// for something before, and every other member is as it was. A text becomes a JSON string,
/// a number a JSON number of the same value, an object a nested JSON object.
#[verifier::external_body]
pub(crate) fn insert_member(
    object: &mut serde_json::Map<String, serde_json::Value>,
    name: &str,
    member: Member,
)
    ensures
        members(*final(object)) == members(*old(object)).insert(name@, member@),
{
    let value = match member {
        Member::Text(text) => serde_json::Value::String(text),
        Member::Number(number) => serde_json::Value::from(number),
        Member::Object(inner) => serde_json::Value::Object(inner),
    };
    object.insert(name.to_owned(), value);
}

} // verus!
