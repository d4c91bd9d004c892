//! JSON values, as `serde_json` reads, holds and writes them.
//!
//! A `serde_json::Value` is opaque to the verifier. What it holds is named by
//! [`tree_of`], a [`JsonTree`]; every function here makes one call into
//! `serde_json` and states, over that tree, what the call does. None of these
//! statements is proved: they are read off the source of `serde_json`.

use serde_json::Value;
use vstd::prelude::*;

verus! {

/// `serde_json::Value`, a JSON value of any shape.
#[verifier::external_type_specification]
#[verifier::external_body]
pub struct ExValue(serde_json::Value);

/// `serde_json::Error`, the reason why a text could not be read or a value
/// could not be written.
#[verifier::external_type_specification]
#[verifier::external_body]
pub struct ExError(serde_json::Error);

/// A JSON value as a mathematical tree.
///
/// An object is the sequence of its members in the order in which the value
/// holds them, which is the order in which they are written. In the tree of
/// a value no two members of one object have the same key.
pub enum JsonTree {
    Null,
    Bool(bool),
    /// A number, by the text that stands for it in a document.
    Number(Seq<char>),
    Text(Seq<char>),
    List(Seq<JsonTree>),
    Object(Seq<(Seq<char>, JsonTree)>),
}

/// The tree that a `serde_json::Value` holds.
pub uninterp spec fn tree_of(value: Value) -> JsonTree;

/// What `serde_json::from_str` makes of a text: the tree of the value it
/// returns, or `None` where it returns an error.
pub uninterp spec fn parsed(text: Seq<char>) -> Option<JsonTree>;

/// What `serde_json::to_string` makes of a value that holds the given tree:
/// the text it returns, or `None` where it returns an error.
pub uninterp spec fn rendered(tree: JsonTree) -> Option<Seq<char>>;

/// The trees of a sequence of values, in the same order.
pub open spec fn trees_of(values: Seq<Value>) -> Seq<JsonTree> {
    values.map_values(|v: Value| tree_of(v))
}

/// The members of an object under construction: each key with the tree of its
/// value.
pub open spec fn members_of(entries: Seq<(String, Value)>) -> Seq<(Seq<char>, JsonTree)> {
    entries.map_values(|e: (String, Value)| (e.0@, tree_of(e.1)))
}

/// Whether no two of the entries have the same key.
pub open spec fn distinct_keys(entries: Seq<(String, Value)>) -> bool {
    forall|i: int, j: int|
        0 <= i < j < entries.len() ==> (#[trigger] entries[i]).0@ != (#[trigger] entries[j]).0@
}

/// The value of the first member with the given key, if there is one.
pub open spec fn lookup(members: Seq<(Seq<char>, JsonTree)>, key: Seq<char>) -> Option<JsonTree>
    decreases members.len(),
{
    if members.len() == 0 {
        None
    } else if members.first().0 == key {
        Some(members.first().1)
    } else {
        lookup(members.drop_first(), key)
    }
}

impl JsonTree {
    /// The member of an object with the given key; `None` for a tree that is
    /// no object or has no such member.
    pub open spec fn member(self, key: Seq<char>) -> Option<JsonTree> {
        match self {
            JsonTree::Object(members) => lookup(members, key),
            _ => None,
        }
    }
}

/// Reads a JSON document with `serde_json::from_str`, which fails unless the
/// whole text is one JSON value. The outcome is fixed by the text; which
/// texts are read, and as what, is left to the name [`parsed`].
#[verifier::external_body]
pub(crate) fn parse(text: &str) -> (outcome: Result<Value, serde_json::Error>)
    ensures
        match outcome {
            Ok(value) => parsed(text@) == Some(tree_of(value)),
            Err(_) => parsed(text@) is None,
        },
{
    serde_json::from_str::<Value>(text)
}

/// Writes a value as a compact JSON document with `serde_json::to_string`.
/// The outcome is fixed by the tree that the value holds; the text itself is
/// left to the name [`rendered`].
#[verifier::external_body]
pub(crate) fn render(value: &Value) -> (outcome: Result<String, serde_json::Error>)
    ensures
        match outcome {
            Ok(text) => rendered(tree_of(*value)) == Some(text@),
            Err(_) => rendered(tree_of(*value)) is None,
        },
{
    serde_json::to_string(value)
}

/// `Value::from` on a `bool`: the JSON value `true` or `false`.
#[verifier::external_body]
pub(crate) fn boolean(flag: bool) -> (value: Value)
    ensures
        tree_of(value) == JsonTree::Bool(flag),
{
    Value::from(flag)
}

/// `Value::from` on a `&str`: the JSON string with the same characters.
#[verifier::external_body]
pub(crate) fn string(text: &str) -> (value: Value)
    ensures
        tree_of(value) == JsonTree::Text(text@),
{
    Value::from(text)
}

/// `Value::from` on a `Vec<Value>`: the JSON array of the same values in the
/// same order.
#[verifier::external_body]
pub(crate) fn array(items: Vec<Value>) -> (value: Value)
    ensures
        tree_of(value) == JsonTree::List(trees_of(items@)),
{
    Value::from(items)
}

/// `Value::from_iter` on pairs of key and value: the JSON object with these
/// members in this order. Keys that repeat are left out by `requires`: for
/// them the object keeps only one member.
#[verifier::external_body]
pub(crate) fn object(entries: Vec<(String, Value)>) -> (value: Value)
    requires
        distinct_keys(entries@),
    ensures
        tree_of(value) == JsonTree::Object(members_of(entries@)),
{
    Value::from_iter(entries)
}

/// `Value::get` with a string: the member with that key where the value is an
/// object that has one, `None` otherwise.
#[verifier::external_body]
pub(crate) fn member<'a>(value: &'a Value, key: &str) -> (found: Option<&'a Value>)
    ensures
        match found {
            Some(inner) => tree_of(*value).member(key@) == Some(tree_of(*inner)),
            None => tree_of(*value).member(key@) is None,
        },
{
    value.get(key)
}

/// `Value::as_array`: the elements where the value is an array, `None`
/// otherwise.
#[verifier::external_body]
pub(crate) fn elements<'a>(value: &'a Value) -> (found: Option<&'a Vec<Value>>)
    ensures
        match found {
            Some(items) => tree_of(*value) == JsonTree::List(trees_of(items@)),
            None => !(tree_of(*value) is List),
        },
{
    value.as_array()
}

/// `Value::as_str`: the characters where the value is a string, `None`
/// otherwise.
#[verifier::external_body]
pub(crate) fn characters<'a>(value: &'a Value) -> (found: Option<&'a str>)
    ensures
        match found {
            Some(text) => tree_of(*value) == JsonTree::Text(text@),
            None => !(tree_of(*value) is Text),
        },
{
    value.as_str()
}

/// `Value::as_bool`: the flag where the value is `true` or `false`, `None`
/// otherwise.
#[verifier::external_body]
pub(crate) fn flag(value: &Value) -> (found: Option<bool>)
    ensures
        match found {
            Some(b) => tree_of(*value) == JsonTree::Bool(b),
            None => !(tree_of(*value) is Bool),
        },
{
    value.as_bool()
}

} // verus!
