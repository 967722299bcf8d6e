//! JSON documents: the tree that the configuration logic reads, and the
//! parser that produces it.

use vstd::prelude::*;
use crate::error::ConfigError;
use crate::lookup::lookup;
use crate::text::same_text;

verus! {

/// A JSON document as a mathematical tree.
///
/// A number is `Some(n)` when the document writes it as a non-negative
/// integer that fits 64 bits, and `None` for every other number: a negative
/// one, one with a fraction or an exponent, one that is too large. An object
/// lists its members in the order of the document.
pub enum JsonTree {
    Null,
    Bool(bool),
    Number(Option<u64>),
    Text(Seq<char>),
    Array(Seq<JsonTree>),
    Object(Seq<(Seq<char>, JsonTree)>),
}

/// A JSON document held in memory. Its view is a [`JsonTree`].
#[derive(Debug)]
pub enum JsonValue {
    Null,
    Bool(bool),
    Number(Option<u64>),
    Text(String),
    Array(Vec<JsonValue>),
    Object(Vec<(String, JsonValue)>),
}

/// The views of the items of an array.
pub open spec fn item_views(items: Seq<JsonValue>) -> Seq<JsonTree>
    decreases items,
{
    Seq::new(
        items.len(),
        |i: int|
            if 0 <= i < items.len() {
                items[i]@
            } else {
                JsonTree::Null
            },
    )
}

/// The views of the members of an object.
pub open spec fn member_views(members: Seq<(String, JsonValue)>) -> Seq<(Seq<char>, JsonTree)>
    decreases members,
{
    Seq::new(
        members.len(),
        |i: int|
            if 0 <= i < members.len() {
                (members[i].0@, members[i].1@)
            } else {
                (Seq::empty(), JsonTree::Null)
            },
    )
}

impl View for JsonValue {
    type V = JsonTree;

    open spec fn view(&self) -> JsonTree
        decreases self,
    {
        match self {
            JsonValue::Null => JsonTree::Null,
            JsonValue::Bool(b) => JsonTree::Bool(*b),
            JsonValue::Number(n) => JsonTree::Number(*n),
            JsonValue::Text(s) => JsonTree::Text(s@),
            JsonValue::Array(items) => JsonTree::Array(item_views(items@)),
            JsonValue::Object(members) => JsonTree::Object(member_views(members@)),
        }
    }
}

/// The member of `tree` under `key`, where `tree` is an object that has one.
pub open spec fn tree_field(tree: JsonTree, key: Seq<char>) -> Option<JsonTree> {
    match tree {
        JsonTree::Object(members) => lookup(members, key),
        _ => None,
    }
}

impl JsonValue {
    /// The member under `key`, if this value is an object that has one.
    pub fn field(&self, key: &str) -> (found: Option<&JsonValue>)
        ensures
            match found {
                Some(value) => tree_field(self@, key@) == Some(value@),
                None => tree_field(self@, key@) is None,
            },
    {
        match self {
            JsonValue::Object(members) => {
                let ghost all = member_views(members@);
                let mut i: usize = 0;
                assert(all.skip(0) =~= all);
                while i < members.len()
                    invariant
                        *self == JsonValue::Object(*members),
                        i <= members@.len(),
                        all == member_views(members@),
                        lookup(all, key@) == lookup(all.skip(i as int), key@),
                    decreases members@.len() - i,
                {
                    proof {
                        assert(all.skip(i as int)[0] == all[i as int]);
                        assert(all.skip(i as int).skip(1) =~= all.skip(i + 1));
                        assert(all[i as int] == (members@[i as int].0@, members@[i as int].1@));
                    }
                    if same_text(members[i].0.as_str(), key) {
                        return Some(&members[i].1);
                    }
                    i += 1;
                }
                None
            },
            _ => None,
        }
    }

    /// A copy of this value.
    pub fn deep_copy(&self) -> (copy: JsonValue)
        ensures
            copy@ == self@,
        decreases self,
    {
        match self {
            JsonValue::Null => JsonValue::Null,
            JsonValue::Bool(b) => JsonValue::Bool(*b),
            JsonValue::Number(n) => JsonValue::Number(*n),
            JsonValue::Text(s) => JsonValue::Text(s.clone()),
            JsonValue::Array(items) => {
                let mut copies: Vec<JsonValue> = Vec::new();
                let mut i: usize = 0;
                while i < items.len()
                    invariant
                        *self == JsonValue::Array(*items),
                        i <= items@.len(),
                        copies@.len() == i,
                        forall|j: int| 0 <= j < i ==> copies@[j]@ == items@[j]@,
                    decreases items@.len() - i,
                {
                    assert(decreases_to!(*self => self->Array_0));
                    copies.push(items[i].deep_copy());
                    i += 1;
                }
                assert(item_views(copies@) =~= item_views(items@));
                JsonValue::Array(copies)
            },
            JsonValue::Object(members) => {
                let mut copies: Vec<(String, JsonValue)> = Vec::new();
                let mut i: usize = 0;
                while i < members.len()
                    invariant
                        *self == JsonValue::Object(*members),
                        i <= members@.len(),
                        copies@.len() == i,
                        forall|j: int|
                            0 <= j < i ==> copies@[j].0@ == members@[j].0@ && copies@[j].1@
                                == members@[j].1@,
                    decreases members@.len() - i,
                {
                    assert(decreases_to!(*self => self->Object_0));
                    copies.push((members[i].0.clone(), members[i].1.deep_copy()));
                    i += 1;
                }
                assert(member_views(copies@) =~= member_views(members@));
                JsonValue::Object(copies)
            },
        }
    }
}

/// The tree that a text denotes when it is a JSON document, and `None` when
/// it is not one.
pub uninterp spec fn json_document(text: Seq<char>) -> Option<JsonTree>;

#[verifier::external_type_specification]
#[verifier::external_body]
pub struct ExSyntaxError(serde_json::Error);

#[verifier::external_type_specification]
#[verifier::external_body]
pub struct ExParsedValue(serde_json::Value);

/// Copies what `serde_json` parsed into a [`JsonValue`], variant by variant.
/// A number becomes what `serde_json::Number::as_u64` returns for it; the
/// members of an object keep the order in which the map yields them, which
/// is the order of the document.
#[verifier::external_body]
fn imported(value: &serde_json::Value) -> JsonValue {
    match value {
        serde_json::Value::Null => JsonValue::Null,
        serde_json::Value::Bool(b) => JsonValue::Bool(*b),
        serde_json::Value::Number(n) => JsonValue::Number(n.as_u64()),
        serde_json::Value::String(s) => JsonValue::Text(s.clone()),
        serde_json::Value::Array(items) => JsonValue::Array(items.iter().map(imported).collect()),
        serde_json::Value::Object(members) => JsonValue::Object(
            members.iter().map(|(key, member)| (key.clone(), imported(member))).collect(),
        ),
    }
}

/// Calls `serde_json::from_str` for a `serde_json::Value`. The contract
/// claims that whether the text is accepted, and the tree that comes out,
/// depend on the text alone: they are what [`json_document`] names.
#[verifier::external_body]
fn read_document(text: &str) -> (parsed: Result<JsonValue, serde_json::Error>)
    ensures
        parsed is Ok <==> json_document(text@) is Some,
        parsed matches Ok(value) ==> json_document(text@) == Some(value@),
{
    let value: serde_json::Value = serde_json::from_str(text)?;
    Ok(imported(&value))
}

impl JsonValue {
    /// Parses a JSON document. Any text that is not one is refused as
    /// [`ConfigError::InvalidStructure`].
    pub fn parse(text: &str) -> (parsed: Result<JsonValue, ConfigError>)
        ensures
            match parsed {
                Ok(value) => json_document(text@) == Some(value@),
                Err(error) => json_document(text@) is None && error
                    == ConfigError::InvalidStructure,
            },
    {
        match read_document(text) {
            Ok(value) => Ok(value),
            Err(_) => Err(ConfigError::InvalidStructure),
        }
    }
}

} // verus!
