//! The JSON of the settings file, read and written with `serde_json`.
//!
//! An object is seen as a map from its keys to trees, with the order of the
//! keys. What the text of a file stands for, and what text is written, is named
//! and not described further: only that a text which was written stands for
//! what was written.

use vstd::prelude::*;

verus! {

/// A JSON value, as far as the settings tell values apart.
pub ghost enum JsonTree {
    Null,
    Bool(bool),
    Unsigned(u64),
    OtherNumber,
    Text,
    List,
    /// An object: its members, and their keys in order.
    Object(Map<Seq<char>, JsonTree>, Seq<Seq<char>>),
}

/// Whether a tree is made of objects, switches, unsigned numbers and nothing
/// else, with objects nested at most `levels` deep and with ordinary keys. A
/// key that begins with a dollar sign is not ordinary: `serde_json` keeps such
/// keys for itself.
pub open spec fn ordinary(tree: JsonTree, levels: nat) -> bool
    decreases levels,
{
    match tree {
        JsonTree::Object(members, _) => levels > 0 && ordinary_members(
            members,
            |member: JsonTree| ordinary(member, (levels - 1) as nat),
        ),
        JsonTree::Null | JsonTree::Bool(_) | JsonTree::Unsigned(_) => true,
        JsonTree::OtherNumber | JsonTree::Text | JsonTree::List => false,
    }
}

/// Whether the keys of an object are ordinary and its members as required.
pub open spec fn ordinary_members(
    members: Map<Seq<char>, JsonTree>,
    required: spec_fn(JsonTree) -> bool,
) -> bool {
    forall|key: Seq<char>| #[trigger]
        members.dom().contains(key) ==> required(members[key]) && (key.len() > 0 ==> key[0] != '$')
}

/// `serde_json::Value`: a JSON value.
#[verifier::external_type_specification]
#[verifier::external_body]
pub struct ExValue(serde_json::Value);

/// `serde_json::Error`: why a text is not JSON, or a value could not be
/// written.
#[verifier::external_type_specification]
#[verifier::external_body]
pub struct ExError(serde_json::Error);

/// `serde_json::Map`: the members of a JSON object.
#[verifier::external_type_specification]
#[verifier::external_body]
#[verifier::reject_recursive_types(K)]
#[verifier::reject_recursive_types(V)]
pub struct ExMap<K, V>(serde_json::Map<K, V>);

/// What a JSON object holds, by key.
pub uninterp spec fn members(object: serde_json::Map<String, serde_json::Value>) -> Map<
    Seq<char>,
    JsonTree,
>;

/// The keys of a JSON object in the order in which they are written.
pub uninterp spec fn key_order(object: serde_json::Map<String, serde_json::Value>) -> Seq<
    Seq<char>,
>;

/// The text that `serde_json::to_vec_pretty` writes for an ordinary object with
/// the given members, whose keys are in the given order.
pub uninterp spec fn pretty(members: Map<Seq<char>, JsonTree>, order: Seq<Seq<char>>) -> Seq<u8>;

/// What `serde_json::from_slice` reads in a text: nothing where it is not
/// JSON, and of a JSON value its members, where it is an object.
pub uninterp spec fn parsed(text: Seq<u8>) -> Option<Option<Map<Seq<char>, JsonTree>>>;

/// What an object without members holds.
pub open spec fn no_members() -> Map<Seq<char>, JsonTree> {
    Map::empty()
}

/// A member of a JSON object.
pub enum JsonMember {
    Missing,
    Null,
    Bool(bool),
    Unsigned(u64),
    OtherNumber,
    Text,
    List,
    Object(serde_json::Map<String, serde_json::Value>),
}

impl JsonMember {
    /// The member as a tree, where it is not missing.
    pub open spec fn tree(self) -> Option<JsonTree> {
        match self {
            JsonMember::Missing => None,
            JsonMember::Null => Some(JsonTree::Null),
            JsonMember::Bool(value) => Some(JsonTree::Bool(value)),
            JsonMember::Unsigned(value) => Some(JsonTree::Unsigned(value)),
            JsonMember::OtherNumber => Some(JsonTree::OtherNumber),
            JsonMember::Text => Some(JsonTree::Text),
            JsonMember::List => Some(JsonTree::List),
            JsonMember::Object(object) => Some(
                JsonTree::Object(members(object), key_order(object)),
            ),
        }
    }
}

/// What can be written as a member of a JSON object.
pub enum NewMember {
    Null,
    Bool(bool),
    Unsigned(u64),
    Object(serde_json::Map<String, serde_json::Value>),
}

impl NewMember {
    /// The member as a tree.
    pub open spec fn tree(self) -> JsonTree {
        match self {
            NewMember::Null => JsonTree::Null,
            NewMember::Bool(value) => JsonTree::Bool(value),
            NewMember::Unsigned(value) => JsonTree::Unsigned(value),
            NewMember::Object(object) => JsonTree::Object(members(object), key_order(object)),
        }
    }
}

/// `serde_json::from_slice`, for a text that may be any JSON value. What the
/// text stands for is the name `parsed`: an error where it is not JSON, no
/// object where it is JSON of another kind, and else the object's members.
#[verifier::external_body]
pub(crate) fn parse(text: &[u8]) -> (r: Result<
    Option<serde_json::Map<String, serde_json::Value>>,
    serde_json::Error,
>)
    ensures
        match r {
            Err(_) => parsed(text@) is None,
            Ok(None) => parsed(text@) is Some && parsed(text@)->0 is None,
            Ok(Some(object)) => parsed(text@) == Some(Some(members(object))),
        },
{
    match serde_json::from_slice::<serde_json::Value>(text)? {
        serde_json::Value::Object(object) => Ok(Some(object)),
        _ => Ok(None),
    }
}

/// `serde_json::Map::get`: the member with a key. A number that
/// `serde_json::Number::as_u64` does not give is another number.
#[verifier::external_body]
pub(crate) fn member(
    object: &serde_json::Map<String, serde_json::Value>,
    key: &str,
) -> (r: JsonMember)
    ensures
        r.tree() == if members(*object).dom().contains(key@) {
            Some(members(*object)[key@])
        } else {
            None
        },
{
    match object.get(key) {
        None => JsonMember::Missing,
        Some(serde_json::Value::Null) => JsonMember::Null,
        Some(serde_json::Value::Bool(value)) => JsonMember::Bool(*value),
        Some(serde_json::Value::Number(number)) => match number.as_u64() {
            Some(value) => JsonMember::Unsigned(value),
            None => JsonMember::OtherNumber,
        },
        Some(serde_json::Value::String(_)) => JsonMember::Text,
        Some(serde_json::Value::Array(_)) => JsonMember::List,
        Some(serde_json::Value::Object(inner)) => JsonMember::Object(inner.clone()),
    }
}

/// `serde_json::Map::new`: the object without members.
#[verifier::external_body]
pub(crate) fn empty_object() -> (r: serde_json::Map<String, serde_json::Value>)
    ensures
        members(r) == no_members(),
        key_order(r) == Seq::<Seq<char>>::empty(),
{
    serde_json::Map::new()
}

/// `serde_json::Map::insert`: adds a member after the others, or replaces the
/// one with its key in its place, since the order of members is preserved.
#[verifier::external_body]
pub(crate) fn insert(
    object: &mut serde_json::Map<String, serde_json::Value>,
    key: &str,
    value: NewMember,
)
    ensures
        members(*final(object)) == members(*old(object)).insert(key@, value.tree()),
        key_order(*final(object)) == if members(*old(object)).dom().contains(key@) {
            key_order(*old(object))
        } else {
            key_order(*old(object)).push(key@)
        },
{
    let value = match value {
        NewMember::Null => serde_json::Value::Null,
        NewMember::Bool(value) => serde_json::Value::Bool(value),
        NewMember::Unsigned(value) => serde_json::Value::from(value),
        NewMember::Object(inner) => serde_json::Value::Object(inner),
    };
    object.insert(key.to_owned(), value);
}

/// `serde_json::to_vec_pretty`, for an object that is ordinary and nested no
/// deeper than `serde_json` reads. Such an object has a text: its keys are
/// texts, no value of it refuses to be written, and it is written to memory.
/// The text is the name `pretty`, and it stands for the object.
#[verifier::external_body]
pub(crate) fn write_object(object: &serde_json::Map<String, serde_json::Value>) -> (r: Result<
    Vec<u8>,
    serde_json::Error,
>)
    requires
        ordinary(JsonTree::Object(members(*object), key_order(*object)), 100),
    ensures
        r is Ok,
        r->Ok_0@ == pretty(members(*object), key_order(*object)),
        parsed(r->Ok_0@) == Some(Some(members(*object))),
{
    serde_json::to_vec_pretty(object)
}

} // verus!
