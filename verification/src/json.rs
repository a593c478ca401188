//! A tree model of the JSON documents that requests carry.

use vstd::prelude::*;

verus! {

/// A JSON value as far as a request body needs one: a text, a list, or an
/// object whose members keep the order in which they were written.
#[derive(Debug, PartialEq, Eq)]
pub enum Json {
    Text(String),
    List(Vec<Json>),
    Object(Vec<(String, Json)>),
}

/// The mathematical value of a [`Json`] tree.
pub enum JsonView {
    Text(Seq<char>),
    List(Seq<JsonView>),
    Object(Seq<(Seq<char>, JsonView)>),
}

/// The value of a tree: every text by its characters, every list and object
/// by the values of what it holds, in order.
pub open spec fn value_of(json: Json) -> JsonView
    decreases json,
{
    match json {
        Json::Text(s) => JsonView::Text(s@),
        Json::List(items) => JsonView::List(
            Seq::new(
                items@.len(),
                |i: int|
                    if 0 <= i < items@.len() {
                        value_of(items@[i])
                    } else {
                        JsonView::Text(Seq::empty())
                    },
            ),
        ),
        Json::Object(members) => JsonView::Object(
            Seq::new(
                members@.len(),
                |i: int|
                    if 0 <= i < members@.len() {
                        (members@[i].0@, value_of(members@[i].1))
                    } else {
                        (Seq::empty(), JsonView::Text(Seq::empty()))
                    },
            ),
        ),
    }
}

impl View for Json {
    type V = JsonView;

    open spec fn view(&self) -> JsonView {
        value_of(*self)
    }
}

/// The value of the first member named `key` among `members`.
pub open spec fn first_member(members: Seq<(Seq<char>, JsonView)>, key: Seq<char>) -> Option<
    JsonView,
>
    decreases members.len(),
{
    if members.len() == 0 {
        None
    } else if members[0].0 == key {
        Some(members[0].1)
    } else {
        first_member(members.drop_first(), key)
    }
}

impl JsonView {
    /// The value that an object holds under `key`; `None` for a key that the
    /// object lacks and for a value that is no object.
    pub open spec fn member(self, key: Seq<char>) -> Option<JsonView> {
        match self {
            JsonView::Object(members) => first_member(members, key),
            _ => None,
        }
    }
}

/// The members of an object, each by its name and the value of what it holds.
pub open spec fn member_views(members: Seq<(String, Json)>) -> Seq<(Seq<char>, JsonView)> {
    Seq::new(members.len(), |i: int| (members[i].0@, members[i].1@))
}

/// The items of a list, each by its value.
pub open spec fn item_views(items: Seq<Json>) -> Seq<JsonView> {
    Seq::new(items.len(), |i: int| items[i]@)
}

impl Json {
    /// A JSON text with the characters of `s`.
    pub fn text(s: &str) -> (json: Json)
        ensures
            json@ == JsonView::Text(s@),
    {
        Json::Text(s.to_owned())
    }

    /// A JSON list of the given items, in their order.
    pub fn list(items: Vec<Json>) -> (json: Json)
        ensures
            json@ == JsonView::List(item_views(items@)),
    {
        let json = Json::List(items);
        assert(json@->List_0 =~= item_views(items@));
        json
    }

    /// A JSON object of the given members, in their order.
    pub fn object(members: Vec<(String, Json)>) -> (json: Json)
        ensures
            json@ == JsonView::Object(member_views(members@)),
    {
        let json = Json::Object(members);
        assert(json@->Object_0 =~= member_views(members@));
        json
    }
}

} // verus!
