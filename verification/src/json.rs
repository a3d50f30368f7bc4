//! JSON values, as held by `serde_json`.
//!
//! Values and objects are opaque to the proofs. [`json_view`] and
//! [`json_entries`] name what they hold, and the functions of this module that
//! reach into `serde_json` say what each call does to it.

pub mod laws;
pub mod string;

use serde_json::{Map as JsonMap, Value};
use vstd::prelude::*;

use self::string::{is_member_text, quoted};

verus! {

/// `serde_json::Value`, opaque to the proofs.
#[verifier::external_type_specification]
#[verifier::external_body]
pub struct ExValue(Value);

/// `serde_json::Map`, opaque to the proofs.
#[verifier::external_type_specification]
#[verifier::external_body]
#[verifier::reject_recursive_types(K)]
#[verifier::reject_recursive_types(V)]
pub struct ExJsonMap<K, V>(JsonMap<K, V>);

/// `serde_json::Error`, opaque to the proofs.
#[verifier::external_type_specification]
#[verifier::external_body]
pub struct ExJsonError(serde_json::Error);

/// The abstract value of a JSON document. Object members stand in insertion
/// order, each name once.
#[verifier::ext_equal]
pub enum Json {
    Null,
    Bool(bool),
    Number(Seq<char>),
    String(Seq<char>),
    Array(Seq<Json>),
    Object(Seq<(Seq<char>, Json)>),
}

/// What a `serde_json::Value` holds.
pub uninterp spec fn json_view(value: Value) -> Json;

/// The members of a `serde_json::Map`, in order.
pub uninterp spec fn json_entries(map: JsonMap<String, Value>) -> Seq<(Seq<char>, Json)>;

/// What `serde_json::from_str` reads from a text, where it is a JSON document.
pub uninterp spec fn json_parse(text: Seq<char>) -> Option<Json>;

/// What the values in `values` hold.
pub open spec fn json_views(values: Seq<Value>) -> Seq<Json> {
    values.map_values(|value: Value| json_view(value))
}

/// What the value in `value` holds, where there is one.
pub open spec fn json_option(value: Option<Value>) -> Option<Json> {
    match value {
        Some(value) => Some(json_view(value)),
        None => None,
    }
}

/// The members of the object in `map`, where there is one.
pub open spec fn entries_option(map: Option<JsonMap<String, Value>>) -> Option<
    Seq<(Seq<char>, Json)>,
> {
    match map {
        Some(map) => Some(json_entries(map)),
        None => None,
    }
}

/// Position of the member `name`, or the number of members where there is none.
pub open spec fn member_index(entries: Seq<(Seq<char>, Json)>, name: Seq<char>) -> int
    decreases entries.len(),
{
    if entries.len() == 0 || entries[0].0 == name {
        0
    } else {
        1 + member_index(entries.drop_first(), name)
    }
}

/// Whether there is a member `name`.
pub open spec fn has_member(entries: Seq<(Seq<char>, Json)>, name: Seq<char>) -> bool {
    member_index(entries, name) < entries.len()
}

/// The value of the member `name` of an object, where there is one.
pub open spec fn member(value: Json, name: Seq<char>) -> Option<Json> {
    match value {
        Json::Object(entries) => if has_member(entries, name) {
            Some(entries[member_index(entries, name)].1)
        } else {
            None
        },
        _ => None,
    }
}

/// The members after `value` was stored under `name`: in the place of the
/// member of that name, or else at the end.
pub open spec fn inserted(
    entries: Seq<(Seq<char>, Json)>,
    name: Seq<char>,
    value: Json,
) -> Seq<(Seq<char>, Json)> {
    if has_member(entries, name) {
        entries.update(member_index(entries, name), (name, value))
    } else {
        entries.push((name, value))
    }
}

/// The members after the member at `index` was taken out and the last one put
/// in its place.
pub open spec fn swap_removed(entries: Seq<(Seq<char>, Json)>, index: int) -> Seq<
    (Seq<char>, Json),
> {
    entries.update(index, entries.last()).drop_last()
}

/// The position of a member is within the members.
pub proof fn member_index_bounds(entries: Seq<(Seq<char>, Json)>, name: Seq<char>)
    ensures
        0 <= member_index(entries, name) <= entries.len(),
        has_member(entries, name) ==> entries[member_index(entries, name)].0 == name,
    decreases entries.len(),
{
    if entries.len() > 0 && entries[0].0 != name {
        member_index_bounds(entries.drop_first(), name);
    }
}

/// A member of a new name goes after the others.
pub proof fn inserted_new(entries: Seq<(Seq<char>, Json)>, name: Seq<char>, value: Json)
    requires
        forall|i: int| 0 <= i < entries.len() ==> (#[trigger] entries[i]).0 != name,
    ensures
        inserted(entries, name, value) == entries.push((name, value)),
        !has_member(entries, name),
{
    member_index_bounds(entries, name);
}

/// The position of the first member of a name: it has the name, and none before
/// it does.
pub proof fn member_index_is(entries: Seq<(Seq<char>, Json)>, name: Seq<char>, at: int)
    requires
        0 <= at <= entries.len(),
        at < entries.len() ==> entries[at].0 == name,
        forall|i: int| 0 <= i < at ==> (#[trigger] entries[i]).0 != name,
    ensures
        member_index(entries, name) == at,
    decreases at,
{
    if at > 0 {
        let rest = entries.drop_first();
        assert forall|i: int| 0 <= i < at - 1 implies (#[trigger] rest[i]).0 != name by {
            assert(rest[i] == entries[i + 1]);
        }
        assert(entries[0].0 != name);
        member_index_is(rest, name, at - 1);
    }
}

/// No member before the first of a name has the name.
pub proof fn member_index_first(entries: Seq<(Seq<char>, Json)>, name: Seq<char>)
    ensures
        forall|i: int|
            0 <= i < member_index(entries, name) && i < entries.len() ==> (
            #[trigger] entries[i]).0 != name,
    decreases entries.len(),
{
    if entries.len() > 0 && entries[0].0 != name {
        let rest = entries.drop_first();
        member_index_first(rest, name);
        assert forall|i: int|
            0 <= i < member_index(entries, name) && i < entries.len() implies (
        #[trigger] entries[i]).0 != name by {
            if i > 0 {
                assert(entries[i] == rest[i - 1]);
            }
        }
    }
}

/// What was stored under a name is found under it, and what was stored under
/// another name is found as before.
pub proof fn inserted_is_found(
    entries: Seq<(Seq<char>, Json)>,
    name: Seq<char>,
    value: Json,
    other: Seq<char>,
)
    ensures
        member(Json::Object(inserted(entries, name, value)), name) == Some(value),
        other != name ==> member(Json::Object(inserted(entries, name, value)), other) == member(
            Json::Object(entries),
            other,
        ),
{
    let at = member_index(entries, name);
    let after = inserted(entries, name, value);
    member_index_bounds(entries, name);
    member_index_first(entries, name);
    member_index_is(after, name, at);
    if other != name {
        let there = member_index(entries, other);
        member_index_bounds(entries, other);
        member_index_first(entries, other);
        if there < entries.len() {
            member_index_is(after, other, there);
        } else {
            assert forall|i: int| 0 <= i < after.len() implies (#[trigger] after[i]).0 != other by {
            }
            member_index_is(after, other, after.len() as int);
        }
    }
}

/// Build the object with the given members, whose names differ.
pub(crate) fn object_of(members: Vec<(&str, Value)>) -> (value: Value)
    requires
        forall|i: int, j: int|
            0 <= i < j < members.len() ==> (#[trigger] members@[i]).0@ != (
            #[trigger] members@[j]).0@,
    ensures
        json_view(value) == Json::Object(members_view(members@)),
{
    let mut map = map_new();
    assert(members_view(members@.take(0)) =~= Seq::<(Seq<char>, Json)>::empty());
    for member in it: members
        invariant
            it.seq() == members@,
            json_entries(map) == members_view(members@.take(it.index())),
            forall|i: int, j: int|
                0 <= i < j < members.len() ==> (#[trigger] members@[i]).0@ != (
                #[trigger] members@[j]).0@,
    {
        let (name, value) = member;
        proof {
            inserted_new(json_entries(map), name@, json_view(value));
            assert(members_view(members@.take(it.index() + 1)) =~= members_view(
                members@.take(it.index()),
            ).push((name@, json_view(value))));
        }
        map_insert(&mut map, name.to_string(), value);
    }
    assert(members@.take(members@.len() as int) =~= members@);
    json_object(map)
}

/// Names and values of members.
pub open spec fn members_view(members: Seq<(&str, Value)>) -> Seq<(Seq<char>, Json)> {
    members.map_values(|member: (&str, Value)| (member.0@, json_view(member.1)))
}

/// The variants of a JSON value.
pub enum JsonNode {
    Null,
    Bool(bool),
    Number,
    String(String),
    Array(Vec<Value>),
    Object(JsonMap<String, Value>),
}

/// Takes a `serde_json::Value` apart. Each variant moves its contents over;
/// numbers are told apart from the rest and not read.
#[verifier::external_body]
pub(crate) fn json_node(value: Value) -> (node: JsonNode)
    ensures
        match node {
            JsonNode::Null => json_view(value) == Json::Null,
            JsonNode::Bool(flag) => json_view(value) == Json::Bool(flag),
            JsonNode::Number => json_view(value) is Number,
            JsonNode::String(text) => json_view(value) == Json::String(text@),
            JsonNode::Array(items) => json_view(value) == Json::Array(json_views(items@)),
            JsonNode::Object(map) => json_view(value) == Json::Object(json_entries(map)),
        },
{
    match value {
        Value::Null => JsonNode::Null,
        Value::Bool(flag) => JsonNode::Bool(flag),
        Value::Number(_) => JsonNode::Number,
        Value::String(text) => JsonNode::String(text),
        Value::Array(items) => JsonNode::Array(items),
        Value::Object(map) => JsonNode::Object(map),
    }
}

/// `serde_json::Value::Bool` is the JSON boolean.
#[verifier::external_body]
pub(crate) fn json_bool(flag: bool) -> (value: Value)
    ensures
        json_view(value) == Json::Bool(flag),
{
    Value::Bool(flag)
}

/// `serde_json::Value::String` is the JSON string that denotes the text.
#[verifier::external_body]
pub(crate) fn json_string(text: String) -> (value: Value)
    ensures
        json_view(value) == Json::String(text@),
{
    Value::String(text)
}

/// `serde_json::Value::Array` is the JSON array of the values.
#[verifier::external_body]
pub(crate) fn json_array(items: Vec<Value>) -> (value: Value)
    ensures
        json_view(value) == Json::Array(json_views(items@)),
{
    Value::Array(items)
}

/// `serde_json::Value::Object` is the JSON object with the map's members.
#[verifier::external_body]
pub(crate) fn json_object(map: JsonMap<String, Value>) -> (value: Value)
    ensures
        json_view(value) == Json::Object(json_entries(map)),
{
    Value::Object(map)
}

/// `Clone` of `serde_json::Value` keeps what the value holds.
pub assume_specification[ <serde_json::Value as Clone>::clone ](value: &serde_json::Value) -> (copy:
    serde_json::Value)
    ensures
        json_view(copy) == json_view(*value),
;

/// What a parse handed back.
pub open spec fn parsed_view(parsed: Result<Value, serde_json::Error>) -> Option<Json> {
    match parsed {
        Ok(value) => Some(json_view(value)),
        Err(_) => None,
    }
}

/// Where `text` is an object with one string member, `read` is that object.
pub open spec fn reads_members(text: Seq<char>, read: Option<Json>) -> bool {
    forall|name: Seq<char>, value: Seq<char>| #[trigger]
        is_member_text(text, name, value) ==> read == Some(
            Json::Object(seq![(name, Json::String(value))]),
        )
}

/// Whether `value` is an object with one member, which is a string.
pub open spec fn is_string_member(value: Json) -> bool {
    value matches Json::Object(entries) && entries.len() == 1 && entries[0].1 is String
}

/// How an object with one string member is spelled with no whitespace between
/// the tokens.
pub open spec fn member_text(value: Json) -> Seq<char> {
    let (name, member) = value->Object_0[0];
    seq!['{'] + quoted(name) + seq![':'] + quoted(member->String_0) + seq!['}']
}

/// `serde_json::from_str` into a `Value` reads a text as one JSON document.
///
/// It fails on the empty text. An object with one string member, its name
/// made of lowercase letters and JSON whitespace at will between the tokens,
/// reads as that member alone.
#[verifier::external_body]
pub(crate) fn parse_json(text: &str) -> (parsed: Result<Value, serde_json::Error>)
    ensures
        parsed_view(parsed) == json_parse(text@),
        text@.len() == 0 ==> parsed is Err,
        reads_members(text@, parsed_view(parsed)),
{
    serde_json::from_str(text)
}

/// `Value::to_string` spells an object with one string member as compact JSON,
/// with no whitespace between its tokens.
#[verifier::external_body]
pub(crate) fn member_to_string(value: &Value) -> (text: String)
    requires
        is_string_member(json_view(*value)),
    ensures
        text@ == member_text(json_view(*value)),
{
    value.to_string()
}

/// `serde_json::Map::new` is an object without members.
#[verifier::external_body]
pub(crate) fn map_new() -> (map: JsonMap<String, Value>)
    ensures
        json_entries(map) == Seq::<(Seq<char>, Json)>::empty(),
{
    JsonMap::new()
}

/// `serde_json::Map::insert` stores a member, in the place of one of the same
/// name or else after the others, and hands back the value it replaced.
#[verifier::external_body]
pub(crate) fn map_insert(map: &mut JsonMap<String, Value>, name: String, value: Value) -> (replaced:
    Option<Value>)
    ensures
        json_entries(*final(map)) == inserted(json_entries(*old(map)), name@, json_view(value)),
        json_option(replaced) == (if has_member(json_entries(*old(map)), name@) {
            Some(json_entries(*old(map))[member_index(json_entries(*old(map)), name@)].1)
        } else {
            None
        }),
{
    map.insert(name, value)
}

/// `serde_json::Map::remove` takes out the member of a name, if there is one,
/// and puts the last member in its place.
#[verifier::external_body]
pub(crate) fn map_remove(map: &mut JsonMap<String, Value>, name: &str) -> (removed: Option<Value>)
    ensures
        match removed {
            Some(value) => {
                let index = member_index(json_entries(*old(map)), name@);
                &&& has_member(json_entries(*old(map)), name@)
                &&& json_view(value) == json_entries(*old(map))[index].1
                &&& json_entries(*final(map)) == swap_removed(json_entries(*old(map)), index)
            },
            None => {
                &&& !has_member(json_entries(*old(map)), name@)
                &&& json_entries(*final(map)) == json_entries(*old(map))
            },
        },
{
    map.remove(name)
}

/// `serde_json::Map::contains_key` tells whether there is a member of a name.
#[verifier::external_body]
pub(crate) fn map_contains(map: &JsonMap<String, Value>, name: &str) -> (found: bool)
    ensures
        found == has_member(json_entries(*map), name@),
{
    map.contains_key(name)
}

/// `serde_json::Map::is_empty` tells whether there is no member.
#[verifier::external_body]
pub(crate) fn map_is_empty(map: &JsonMap<String, Value>) -> (empty: bool)
    ensures
        empty == (json_entries(*map).len() == 0),
{
    map.is_empty()
}

} // verus!
