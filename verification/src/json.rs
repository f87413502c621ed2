//! JSON objects of scalar members, the shape of a token's payload.
//!
//! The objects themselves are `serde_json` maps. Verified code sees one only
//! through [`json_members`], the mathematical map from member name to value,
//! and through the three operations below, whose contracts are taken on trust
//! from `serde_json`.

use vstd::prelude::*;

verus! {

/// `serde_json::Value`, carried through and never looked into.
#[verifier::external_type_specification]
#[verifier::external_body]
pub struct ExJsonValue(serde_json::Value);

/// `serde_json::Map`, seen through [`json_members`] alone.
#[verifier::external_type_specification]
#[verifier::external_body]
#[verifier::reject_recursive_types(K)]
#[verifier::reject_recursive_types(V)]
pub struct ExJsonMap<K, V>(serde_json::Map<K, V>);

/// A JSON object.
pub type JsonObject = serde_json::Map<String, serde_json::Value>;

/// The value of one member, as far as this crate reads or writes it.
#[derive(Debug)]
pub enum JsonItem {
    Null,
    Bool(bool),
    /// A number that is an integer in the range of `i64`.
    Int(i64),
    Text(String),
    /// An array, an object, or a number outside `i64`.
    Other,
}

/// What a [`JsonItem`] stands for in contracts.
pub enum JsonField {
    Null,
    Bool(bool),
    Int(i64),
    Text(Seq<char>),
    Other,
}

impl View for JsonItem {
    type V = JsonField;

    open spec fn view(&self) -> JsonField {
        match self {
            JsonItem::Null => JsonField::Null,
            JsonItem::Bool(b) => JsonField::Bool(*b),
            JsonItem::Int(i) => JsonField::Int(*i),
            JsonItem::Text(s) => JsonField::Text(s@),
            JsonItem::Other => JsonField::Other,
        }
    }
}

/// The members of a JSON object: each name with the value it holds.
pub uninterp spec fn json_members(obj: serde_json::Map<String, serde_json::Value>) -> Map<
    Seq<char>,
    JsonField,
>;

/// The members of an empty object.
pub open spec fn no_members() -> Map<Seq<char>, JsonField> {
    Map::empty()
}

/// Every member is null, a boolean, an `i64` or a string.
pub open spec fn all_scalar(members: Map<Seq<char>, JsonField>) -> bool {
    forall|name: Seq<char>| #[trigger] members.contains_key(name) ==> !(members[name] is Other)
}

/// `serde_json::Map::new`: an object without members.
#[verifier::external_body]
pub(crate) fn json_object_new() -> (obj: JsonObject)
    ensures
        json_members(obj) == no_members(),
{
    serde_json::Map::new()
}

/// `serde_json::Map::insert`: afterwards `key` holds `item`, whatever it held
/// before, and every other member is as it was.
#[verifier::external_body]
pub(crate) fn json_insert(obj: &mut JsonObject, key: &str, item: JsonItem)
    requires
        !(item is Other),
    ensures
        json_members(*final(obj)) == json_members(*old(obj)).insert(key@, item@),
{
    let value = match item {
        JsonItem::Bool(b) => serde_json::Value::Bool(b),
        JsonItem::Int(i) => serde_json::Value::from(i),
        JsonItem::Text(s) => serde_json::Value::String(s),
        _ => serde_json::Value::Null,
    };
    obj.insert(key.to_string(), value);
}

/// `serde_json::Map::get`: the value that `key` holds, or `None` where the
/// object has no such member. A number is an `Int` exactly when
/// `Number::as_i64` yields it.
#[verifier::external_body]
pub(crate) fn json_get(obj: &JsonObject, key: &str) -> (found: Option<JsonItem>)
    ensures
        found matches Some(item) ==> json_members(*obj).contains_key(key@),
        found matches Some(item) ==> json_members(*obj)[key@] == item@,
        found is None ==> !json_members(*obj).contains_key(key@),
{
    match obj.get(key) {
        None => None,
        Some(serde_json::Value::Null) => Some(JsonItem::Null),
        Some(serde_json::Value::Bool(b)) => Some(JsonItem::Bool(*b)),
        Some(serde_json::Value::String(s)) => Some(JsonItem::Text(s.clone())),
        Some(serde_json::Value::Number(n)) => Some(n.as_i64().map_or(JsonItem::Other, JsonItem::Int)),
        Some(_) => Some(JsonItem::Other),
    }
}

} // verus!
