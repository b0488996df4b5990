//! What the backend reads of a JSON document.

use vstd::prelude::*;

verus! {

/// A JSON document as a mathematical value.
///
/// A number is held as its decimal text. An object is a map from member name to value: member
/// names do not repeat and their order carries no meaning.
pub enum Json {
    Null,
    Bool(bool),
    Number(Seq<char>),
    Text(Seq<char>),
    List(Seq<Json>),
    Object(Map<Seq<char>, Json>),
}

impl Json {
    /// The member `key` of an object; nothing for every other kind of value.
    pub open spec fn member(self, key: Seq<char>) -> Option<Json> {
        match self {
            Json::Object(members) => if members.contains_key(key) {
                Some(members[key])
            } else {
                None
            },
            _ => None,
        }
    }

    /// The member `key`, with `null` standing in for a missing one.
    pub open spec fn at(self, key: Seq<char>) -> Json {
        match self.member(key) {
            Some(value) => value,
            None => Json::Null,
        }
    }

    /// The value reached by following the member names `keys` one after the other.
    pub open spec fn descend(self, keys: Seq<Seq<char>>) -> Option<Json>
        decreases keys.len(),
    {
        if keys.len() == 0 {
            Some(self)
        } else {
            match self.member(keys[0]) {
                Some(value) => value.descend(keys.drop_first()),
                None => None,
            }
        }
    }

    /// The text of a JSON string.
    pub open spec fn as_text(self) -> Option<Seq<char>> {
        match self {
            Json::Text(text) => Some(text),
            _ => None,
        }
    }

    /// The value of a JSON boolean.
    pub open spec fn as_flag(self) -> Option<bool> {
        match self {
            Json::Bool(flag) => Some(flag),
            _ => None,
        }
    }
}

/// A member name made of lower-case ASCII letters and underscores. In a JSON pointer such a name
/// stands for itself, and it is never an array index.
pub open spec fn is_plain_name(key: Seq<char>) -> bool {
    &&& key.len() > 0
    &&& forall|i: int|
        0 <= i < key.len() ==> ('a' <= #[trigger] key[i] && key[i] <= 'z') || key[i] == '_'
}

/// The JSON pointer that follows the member names `keys`: each one behind a slash.
pub open spec fn pointer_to(keys: Seq<Seq<char>>) -> Seq<char>
    decreases keys.len(),
{
    if keys.len() == 0 {
        seq![]
    } else {
        pointer_to(keys.drop_last()) + seq!['/'] + keys.last()
    }
}

/// A JSON value of `serde_json`.
#[verifier::external_type_specification]
#[verifier::external_body]
pub struct ExValue(serde_json::Value);

/// The document that a `serde_json::Value` holds.
pub uninterp spec fn document(v: serde_json::Value) -> Json;

/// The compact text that `serde_json` writes for a document. It writes the members of an object in
/// the order of their names, so the document alone decides the text. (With the feature
/// `preserve_order`, which this crate leaves off, it would keep the order of insertion.)
pub uninterp spec fn compact_text(j: Json) -> Seq<char>;

/// Indexing a `serde_json::Value` with a string: the member of that name, `null` where the value
/// is no object or has no such member.
#[verifier::external_body]
pub(crate) fn value_at<'a>(v: &'a serde_json::Value, key: &str) -> (value: &'a serde_json::Value)
    ensures
        document(*value) == document(*v).at(key@),
{
    &v[key]
}

/// `serde_json::Value::pointer`, for pointers made of plain names: the value reached by following
/// the names, nothing where one of them is missing or is looked up in something that is no object.
/// What other pointers reach is left open.
#[verifier::external_body]
pub(crate) fn value_pointer<'a>(v: &'a serde_json::Value, pointer: &str) -> (found: Option<
    &'a serde_json::Value,
>)
    ensures
        forall|keys: Seq<Seq<char>>|
            pointer@ == #[trigger] pointer_to(keys) && (forall|i: int|
                0 <= i < keys.len() ==> is_plain_name(#[trigger] keys[i])) ==> match found {
                Some(value) => document(*v).descend(keys) == Some(document(*value)),
                None => document(*v).descend(keys) is None,
            },
{
    v.pointer(pointer)
}

/// `serde_json::Value::as_str`: the text of a string, nothing for any other kind.
#[verifier::external_body]
pub(crate) fn value_as_str<'a>(v: &'a serde_json::Value) -> (text: Option<&'a str>)
    ensures
        match text {
            Some(s) => document(*v).as_text() == Some(s@),
            None => document(*v).as_text() is None,
        },
{
    v.as_str()
}

/// `serde_json::Value::as_bool`: the value of a boolean, nothing for any other kind.
#[verifier::external_body]
pub(crate) fn value_as_bool(v: &serde_json::Value) -> (flag: Option<bool>)
    ensures
        flag == document(*v).as_flag(),
{
    v.as_bool()
}

/// `serde_json::Value::is_null`: whether the value is `null`.
#[verifier::external_body]
pub(crate) fn value_is_null(v: &serde_json::Value) -> (null: bool)
    ensures
        null == (document(*v) is Null),
{
    v.is_null()
}

/// `serde_json::Value`'s `Display`: the compact JSON text of the value.
#[verifier::external_body]
pub(crate) fn value_text(v: &serde_json::Value) -> (text: String)
    ensures
        text@ == compact_text(document(*v)),
{
    v.to_string()
}

} // verus!
