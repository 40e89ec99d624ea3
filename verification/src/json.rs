//! JSON values as the backend's answers hold them, and what is read of them.

use vstd::prelude::*;
use crate::text::{copy_text, same_text};

verus! {

/// A JSON value.
#[derive(Debug, PartialEq, Eq)]
pub enum Json {
    Null,
    Bool(bool),
    /// A number, kept as the text of its decimal notation.
    Number(String),
    Text(String),
    Array(Vec<Json>),
    /// The members of an object, each with its key.
    Object(Vec<(String, Json)>),
}

pub enum JsonView {
    Null,
    Bool(bool),
    Number(Seq<char>),
    Text(Seq<char>),
    Array(Seq<JsonView>),
    Object(Seq<(Seq<char>, JsonView)>),
}

/// The value that a [`Json`] stands for.
pub open spec fn json_view(value: Json) -> JsonView
    decreases value,
{
    match value {
        Json::Null => JsonView::Null,
        Json::Bool(b) => JsonView::Bool(b),
        Json::Number(n) => JsonView::Number(n@),
        Json::Text(s) => JsonView::Text(s@),
        Json::Array(items) => JsonView::Array(
            Seq::new(
                items@.len(),
                |i: int|
                    if 0 <= i < items@.len() {
                        json_view(items@[i])
                    } else {
                        JsonView::Null
                    },
            ),
        ),
        Json::Object(members) => JsonView::Object(
            Seq::new(
                members@.len(),
                |i: int|
                    if 0 <= i < members@.len() {
                        (members@[i].0@, json_view(members@[i].1))
                    } else {
                        (Seq::empty(), JsonView::Null)
                    },
            ),
        ),
    }
}

impl View for Json {
    type V = JsonView;

    open spec fn view(&self) -> JsonView {
        json_view(*self)
    }
}

/// The value of the first member with the given key.
pub open spec fn value_of_key(members: Seq<(Seq<char>, JsonView)>, key: Seq<char>) -> Option<
    JsonView,
>
    decreases members.len(),
{
    if members.len() == 0 {
        None
    } else if members[0].0 == key {
        Some(members[0].1)
    } else {
        value_of_key(members.drop_first(), key)
    }
}

impl JsonView {
    /// The member of an object under `key`; `None` for a missing key and for
    /// a value that is no object.
    pub open spec fn member(self, key: Seq<char>) -> Option<JsonView> {
        match self {
            JsonView::Object(members) => value_of_key(members, key),
            _ => None,
        }
    }

    /// The element of an array at `i`; `None` past the end and for a value
    /// that is no array.
    pub open spec fn element(self, i: int) -> Option<JsonView> {
        match self {
            JsonView::Array(items) => if 0 <= i < items.len() {
                Some(items[i])
            } else {
                None
            },
            _ => None,
        }
    }

    /// The characters of a string; `None` for any other value.
    pub open spec fn text(self) -> Option<Seq<char>> {
        match self {
            JsonView::Text(s) => Some(s),
            _ => None,
        }
    }
}

/// `serde_json::Value`: a value as the parser hands it over, opaque to the
/// proofs until it is turned into a [`Json`].
#[verifier::external_type_specification]
#[verifier::external_body]
pub struct ExJsonValue(serde_json::Value);

/// `serde_json::Error`: why a text was refused. It is never looked into.
#[verifier::external_type_specification]
#[verifier::external_body]
pub struct ExJsonError(serde_json::Error);

/// The value that `serde_json` reads from a text, or `None` where the text
/// is not JSON.
pub uninterp spec fn json_of(text: Seq<char>) -> Option<JsonView>;

/// Turns a value of `serde_json` into a [`Json`], variant by variant. A
/// number is kept as the text that `serde_json` prints for it, the members of
/// an object in the order in which its map hands them out. Nothing is claimed
/// of the result.
#[verifier::external_body]
fn json_from_value(value: serde_json::Value) -> Json {
    match value {
        serde_json::Value::Null => Json::Null,
        serde_json::Value::Bool(b) => Json::Bool(b),
        serde_json::Value::Number(n) => Json::Number(n.to_string()),
        serde_json::Value::String(s) => Json::Text(s),
        serde_json::Value::Array(items) => Json::Array(
            items.into_iter().map(json_from_value).collect(),
        ),
        serde_json::Value::Object(members) => Json::Object(
            members.into_iter().map(|(k, v)| (k, json_from_value(v))).collect(),
        ),
    }
}

/// Calls `serde_json::from_str::<serde_json::Value>`.
///
/// Trusted: that the outcome depends on the text alone, so that it can be
/// named `json_of`; the call fails exactly where that is `None`.
#[verifier::external_body]
fn parse_value(text: &str) -> (r: Result<Json, serde_json::Error>)
    ensures
        match r {
            Ok(value) => json_of(text@) == Some(value@),
            Err(_) => json_of(text@) is None,
        },
{
    Ok(json_from_value(serde_json::from_str::<serde_json::Value>(text)?))
}

impl Json {
    /// Reads a text as JSON.
    pub fn parse(text: &str) -> (r: Option<Json>)
        ensures
            match r {
                Some(value) => json_of(text@) == Some(value@),
                None => json_of(text@) is None,
            },
    {
        match parse_value(text) {
            Ok(value) => Some(value),
            Err(_) => None,
        }
    }

    /// The member of an object under `key`.
    pub fn get(&self, key: &str) -> (r: Option<&Json>)
        ensures
            match r {
                Some(value) => self@.member(key@) == Some(value@),
                None => self@.member(key@) is None,
            },
    {
        match self {
            Json::Object(members) => {
                let ghost all = self@->Object_0;
                let mut i: usize = 0;
                assert(all.skip(0) =~= all);
                while i < members.len()
                    invariant
                        i <= members.len(),
                        self@ == JsonView::Object(all),
                        all.len() == members@.len(),
                        forall|j: int|
                            0 <= j < all.len() ==> all[j] == (
                                #[trigger] members@[j].0@,
                                members@[j].1@,
                            ),
                        value_of_key(all, key@) == value_of_key(all.skip(i as int), key@),
                    decreases members.len() - i,
                {
                    assert(all.skip(i as int)[0] == all[i as int]);
                    assert(all[i as int] == (members@[i as int].0@, members@[i as int].1@));
                    assert(all.skip(i as int).drop_first() =~= all.skip(i + 1));
                    if same_text(members[i].0.as_str(), key) {
                        return Some(&members[i].1);
                    }
                    i = i + 1;
                }
                None
            },
            _ => None,
        }
    }

    /// The element of an array at `i`.
    pub fn at(&self, i: usize) -> (r: Option<&Json>)
        ensures
            match r {
                Some(value) => self@.element(i as int) == Some(value@),
                None => self@.element(i as int) is None,
            },
    {
        match self {
            Json::Array(items) => if i < items.len() {
                Some(&items[i])
            } else {
                None
            },
            _ => None,
        }
    }

    /// The string that the value is, if it is one.
    pub fn as_text(&self) -> (r: Option<&String>)
        ensures
            match r {
                Some(s) => self@.text() == Some(s@),
                None => self@.text() is None,
            },
    {
        match self {
            Json::Text(s) => Some(s),
            _ => None,
        }
    }
}

/// The views of the members of an object.
pub open spec fn member_views(members: Seq<(String, Json)>) -> Seq<(Seq<char>, JsonView)> {
    Seq::new(members.len(), |i: int| (members[i].0@, members[i].1@))
}

/// The views of the items of an array.
pub open spec fn element_views(items: Seq<Json>) -> Seq<JsonView> {
    Seq::new(items.len(), |i: int| items[i]@)
}

impl Json {
    /// The JSON string with the characters of `s`.
    pub fn text(s: &str) -> (value: Json)
        ensures
            value@ == JsonView::Text(s@),
    {
        Json::Text(copy_text(s))
    }

    /// The JSON array of the given items.
    pub fn array(items: Vec<Json>) -> (value: Json)
        ensures
            value@ == JsonView::Array(element_views(items@)),
    {
        let value = Json::Array(items);
        assert(value@->Array_0 =~= element_views(items@));
        value
    }

    /// The JSON object of the given members.
    pub fn object(members: Vec<(String, Json)>) -> (value: Json)
        ensures
            value@ == JsonView::Object(member_views(members@)),
    {
        let value = Json::Object(members);
        assert(value@->Object_0 =~= member_views(members@));
        value
    }
}

/// Adds a member to the members of an object under construction.
pub fn push_member(members: &mut Vec<(String, Json)>, key: &str, value: Json)
    ensures
        member_views(final(members)@) == member_views(old(members)@).push((key@, value@)),
{
    members.push((copy_text(key), value));
    assert(member_views(members@) =~= member_views(old(members)@).push((key@, value@)));
}

/// Adds an item to the items of an array under construction.
pub fn push_element(items: &mut Vec<Json>, value: Json)
    ensures
        element_views(final(items)@) == element_views(old(items)@).push(value@),
{
    items.push(value);
    assert(element_views(items@) =~= element_views(old(items)@).push(value@));
}

} // verus!
