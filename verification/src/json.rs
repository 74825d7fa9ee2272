//! JSON documents as `serde_json` holds them, and the mathematical tree that
//! the contracts of this crate speak of in their place.
//!
//! Everything in this file that touches `serde_json` is trusted: its contract
//! is believed, not proved.

use vstd::prelude::*;

verus! {

/// A JSON document as a mathematical value.
pub enum JsonTree {
    /// The JSON `null`.
    Null,
    /// A JSON boolean.
    Boolean(bool),
    /// A JSON number that is an integer, by its value.
    Integer(int),
    /// A JSON number that is no integer, by the literal it is written as.
    Decimal(Seq<char>),
    /// A JSON string, by its characters.
    Text(Seq<char>),
    /// A JSON array, by its elements in order.
    Array(Seq<JsonTree>),
    /// A JSON object, by its members.
    Object(Map<Seq<char>, JsonTree>),
}

impl JsonTree {
    /// The member `key` of an object; `Null` where `self` is no object or has
    /// no such member.
    pub open spec fn member(self, key: Seq<char>) -> JsonTree {
        match self {
            JsonTree::Object(members) => if members.contains_key(key) {
                members[key]
            } else {
                JsonTree::Null
            },
            _ => JsonTree::Null,
        }
    }

    /// The element at `index` of an array; `Null` where `self` is no array or
    /// is too short.
    pub open spec fn element(self, index: int) -> JsonTree {
        match self {
            JsonTree::Array(elements) => if 0 <= index < elements.len() {
                elements[index]
            } else {
                JsonTree::Null
            },
            _ => JsonTree::Null,
        }
    }
}

/// The text `null`.
pub open spec fn null_text() -> Seq<char> {
    seq!['n', 'u', 'l', 'l']
}

/// `serde_json::Value`, a JSON document. Nothing inside it is visible here;
/// `json_tree` names what it holds.
#[verifier::external_type_specification]
#[verifier::external_body]
pub struct ExValue(serde_json::Value);

/// `serde_json::Error`, the error of a text that is no JSON document.
#[verifier::external_type_specification]
#[verifier::external_body]
pub struct ExError(serde_json::Error);

/// `serde_json::Map`, the members of a JSON object. Nothing inside it is
/// visible here; `json_members` names what it holds.
#[verifier::external_type_specification]
#[verifier::external_body]
#[verifier::reject_recursive_types(K)]
#[verifier::reject_recursive_types(V)]
pub struct ExMembers<K, V>(serde_json::Map<K, V>);

/// The tree that a `serde_json::Value` holds.
pub uninterp spec fn json_tree(value: serde_json::Value) -> JsonTree;

/// The members that a `serde_json::Map` holds, each value as its tree.
pub uninterp spec fn json_members(
    members: serde_json::Map<String, serde_json::Value>,
) -> Map<Seq<char>, JsonTree>;

/// What `serde_json::from_str` makes of a text: the tree of the document, or
/// `None` where it rejects the text.
pub uninterp spec fn json_parse(text: Seq<char>) -> Option<JsonTree>;

/// The compact text that `serde_json` writes for a tree.
pub uninterp spec fn json_text(tree: JsonTree) -> Seq<char>;

/// The members of an object without members.
pub open spec fn no_json_members() -> Map<Seq<char>, JsonTree> {
    Map::empty()
}

/// The trees of a sequence of values.
pub open spec fn json_trees(values: Seq<serde_json::Value>) -> Seq<JsonTree> {
    values.map_values(|v: serde_json::Value| json_tree(v))
}

/// `serde_json::from_str` at `serde_json::Value`. Whether it accepts the text,
/// and the document it reads, depend on the text alone: the two are named
/// `json_parse`, and nothing more is claimed of them.
#[verifier::external_body]
pub(crate) fn parse(text: &str) -> (r: Result<serde_json::Value, serde_json::Error>)
    ensures
        match r {
            Ok(v) => json_parse(text@) == Some(json_tree(v)),
            Err(_) => json_parse(text@) is None,
        },
{
    serde_json::from_str::<serde_json::Value>(text)
}

/// `to_string` of `serde_json::Error`, by its `Display`: the text of a parse
/// error. Nothing is claimed of it.
#[verifier::external_body]
pub(crate) fn describe(error: &serde_json::Error) -> String {
    error.to_string()
}

/// `Index<&str>` of `serde_json::Value`: the member of that name, and `Null`
/// where the value is no object or has no such member. It never panics.
#[verifier::external_body]
pub(crate) fn member<'a>(value: &'a serde_json::Value, key: &str) -> (r: &'a serde_json::Value)
    ensures
        json_tree(*r) == json_tree(*value).member(key@),
{
    &value[key]
}

/// `Index<usize>` of `serde_json::Value`: the element at that position, and
/// `Null` where the value is no array or is too short. It never panics.
#[verifier::external_body]
pub(crate) fn element<'a>(
    value: &'a serde_json::Value,
    index: usize,
) -> (r: &'a serde_json::Value)
    ensures
        json_tree(*r) == json_tree(*value).element(index as int),
{
    &value[index]
}

/// `serde_json::Value::as_str`: the characters of a string, as they stand
/// and without quotes or escapes, and `None` for every value that is no
/// string.
#[verifier::external_body]
pub(crate) fn as_text<'a>(value: &'a serde_json::Value) -> (r: Option<&'a str>)
    ensures
        match r {
            Some(s) => json_tree(*value) == JsonTree::Text(s@),
            None => !(json_tree(*value) is Text),
        },
{
    value.as_str()
}

/// `to_string` of `serde_json::Value`, by its `Display`: the compact JSON
/// text, which depends on the tree alone and is named `json_text`. One fact
/// is claimed of it: `Null` is written `null`.
#[verifier::external_body]
pub(crate) fn render(value: &serde_json::Value) -> (r: String)
    ensures
        r@ == json_text(json_tree(*value)),
        json_tree(*value) is Null ==> r@ == null_text(),
{
    value.to_string()
}

/// The variant `serde_json::Value::Null`.
#[verifier::external_body]
pub(crate) fn null() -> (r: serde_json::Value)
    ensures
        json_tree(r) == JsonTree::Null,
{
    serde_json::Value::Null
}

/// The variant `serde_json::Value::Bool`.
#[verifier::external_body]
pub(crate) fn boolean(flag: bool) -> (r: serde_json::Value)
    ensures
        json_tree(r) == JsonTree::Boolean(flag),
{
    serde_json::Value::Bool(flag)
}

/// `From<u64>` of `serde_json::Value`: the number with that integer value.
#[verifier::external_body]
pub(crate) fn integer(n: u64) -> (r: serde_json::Value)
    ensures
        json_tree(r) == JsonTree::Integer(n as int),
{
    serde_json::Value::from(n)
}

/// The variant `serde_json::Value::String`, of a copy of `s`.
#[verifier::external_body]
pub(crate) fn text(s: &str) -> (r: serde_json::Value)
    ensures
        json_tree(r) == JsonTree::Text(s@),
{
    serde_json::Value::String(s.to_owned())
}

/// The variant `serde_json::Value::Array`: the array of the given values, in
/// their order.
#[verifier::external_body]
pub(crate) fn array(elements: Vec<serde_json::Value>) -> (r: serde_json::Value)
    ensures
        json_tree(r) == JsonTree::Array(json_trees(elements@)),
{
    serde_json::Value::Array(elements)
}

/// `serde_json::Map::new`: a map without members.
#[verifier::external_body]
pub(crate) fn no_members() -> (r: serde_json::Map<String, serde_json::Value>)
    ensures
        json_members(r) == no_json_members(),
{
    serde_json::Map::new()
}

/// `serde_json::Map::insert`: the member `key` is set to `value`, in place of
/// an earlier one of that name, and the other members stay.
#[verifier::external_body]
pub(crate) fn put(
    members: &mut serde_json::Map<String, serde_json::Value>,
    key: &str,
    value: serde_json::Value,
)
    ensures
        json_members(*final(members)) == json_members(*old(members)).insert(key@, json_tree(value)),
{
    members.insert(key.to_owned(), value);
}

/// The variant `serde_json::Value::Object`: the object with the given
/// members.
#[verifier::external_body]
pub(crate) fn object(members: serde_json::Map<String, serde_json::Value>) -> (r: serde_json::Value)
    ensures
        json_tree(r) == JsonTree::Object(json_members(members)),
{
    serde_json::Value::Object(members)
}

} // verus!
