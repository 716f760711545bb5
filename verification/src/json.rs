//! JSON values, and their text by way of `serde_json`.

use vstd::prelude::*;
use serde_json::Value;

verus! {

/// `serde_json::Value`, the tree that `serde_json` parses into and prints from.
#[verifier::external_type_specification]
#[verifier::external_body]
pub struct ExValue(Value);

/// One member of a JSON object.
#[derive(Debug, PartialEq, Eq)]
pub struct Member {
    pub key: String,
    pub value: Json,
}

/// A JSON value.
#[derive(Debug, PartialEq, Eq)]
pub enum Json {
    Null,
    Bool(bool),
    /// A number; `None` stands for one that is no whole number from 0 to
    /// `u64::MAX`.
    Number(Option<u64>),
    Text(String),
    List(Vec<Json>),
    /// The members of an object, in the order of their keys.
    Object(Vec<Member>),
}

/// A JSON value as contracts see it.
pub enum JsonView {
    Null,
    Bool(bool),
    Number(Option<u64>),
    Text(Seq<char>),
    List(Seq<JsonView>),
    Object(Seq<(Seq<char>, JsonView)>),
}

/// The view of each item of a list.
pub open spec fn list_view(items: Seq<Json>) -> Seq<JsonView>
    decreases items,
{
    if items.len() == 0 {
        Seq::empty()
    } else {
        list_view(items.drop_last()).push(json_view(items.last()))
    }
}

/// The key and the view of each member of an object.
pub open spec fn members_view(members: Seq<Member>) -> Seq<(Seq<char>, JsonView)>
    decreases members,
{
    if members.len() == 0 {
        Seq::empty()
    } else {
        members_view(members.drop_last()).push(
            (members.last().key@, json_view(members.last().value)),
        )
    }
}

/// A value as contracts see it.
pub open spec fn json_view(json: Json) -> JsonView
    decreases json,
{
    match json {
        Json::Null => JsonView::Null,
        Json::Bool(b) => JsonView::Bool(b),
        Json::Number(n) => JsonView::Number(n),
        Json::Text(s) => JsonView::Text(s@),
        Json::List(items) => JsonView::List(list_view(items@)),
        Json::Object(members) => JsonView::Object(members_view(members@)),
    }
}

impl View for Json {
    type V = JsonView;

    open spec fn view(&self) -> JsonView {
        json_view(*self)
    }
}

/// `list_view` keeps the length and views item by item.
pub proof fn lemma_list_view(items: Seq<Json>)
    ensures
        list_view(items).len() == items.len(),
        forall|i: int| 0 <= i < items.len() ==> (#[trigger] list_view(items)[i]) == items[i]@,
    decreases items.len(),
{
    if items.len() > 0 {
        lemma_list_view(items.drop_last());
    }
}

/// `members_view` keeps the length and views member by member.
pub proof fn lemma_members_view(members: Seq<Member>)
    ensures
        members_view(members).len() == members.len(),
        forall|i: int|
            0 <= i < members.len() ==> (#[trigger] members_view(members)[i]) == (
                members[i].key@,
                members[i].value@,
            ),
    decreases members.len(),
{
    if members.len() > 0 {
        lemma_members_view(members.drop_last());
    }
}

/// The value that `serde_json` reads out of a text, if the text is one
/// JSON value and nothing else.
pub uninterp spec fn parsed_json(text: Seq<char>) -> Option<JsonView>;

/// The text that `serde_json` prints for a value.
pub uninterp spec fn json_text(value: JsonView) -> Seq<char>;

/// Turns a `serde_json::Value` into a `Json`, variant by variant. A number
/// goes through `Number::as_u64`; the members of an object come in the
/// order in which its map hands them out.
#[verifier::external_body]
fn json_from_value(value: Value) -> Json {
    match value {
        Value::Null => Json::Null,
        Value::Bool(b) => Json::Bool(b),
        Value::Number(n) => Json::Number(n.as_u64()),
        Value::String(s) => Json::Text(s),
        Value::Array(items) => Json::List(items.into_iter().map(json_from_value).collect()),
        Value::Object(map) => Json::Object(
            map.into_iter().map(|(key, v)| Member { key, value: json_from_value(v) }).collect(),
        ),
    }
}

/// Turns a `Json` into a `serde_json::Value`, variant by variant. A number
/// goes through `Value::from`, which makes `null` of `None`; of two members
/// with one key the map keeps the later.
#[verifier::external_body]
fn value_from_json(json: &Json) -> Value {
    match json {
        Json::Null => Value::Null,
        Json::Bool(b) => Value::Bool(*b),
        Json::Number(n) => Value::from(*n),
        Json::Text(s) => Value::String(s.clone()),
        Json::List(items) => Value::Array(items.iter().map(value_from_json).collect()),
        Json::Object(members) => Value::Object(
            members.iter().map(|m| (m.key.clone(), value_from_json(&m.value))).collect(),
        ),
    }
}

/// Parses `text` with `serde_json::from_str`. The result is a function of
/// the text alone; `None` stands for any text that `serde_json` refuses.
#[verifier::external_body]
pub(crate) fn parse(text: &str) -> (r: Option<Json>)
    ensures
        match r {
            Some(json) => parsed_json(text@) == Some(json@),
            None => parsed_json(text@) is None,
        },
{
    serde_json::from_str::<Value>(text).ok().map(json_from_value)
}

/// Prints `json` as compact JSON text, as `serde_json` displays a `Value`.
/// The result is a function of the value alone.
#[verifier::external_body]
pub(crate) fn render(json: &Json) -> (r: String)
    ensures
        r@ == json_text(json@),
{
    value_from_json(json).to_string()
}

} // verus!
