//! A JSON document as a tree of plain values.
//!
//! The tree holds what the rest of the library reads from a response body:
//! the shape of the document, its strings, booleans and integers. A number
//! that is not an integer in the range of `u64` or `i64` is kept only as the
//! fact that it is one.

use crate::trusted::{json_of_value, json_parse, value_from_text};
use vstd::prelude::*;

verus! {

/// A JSON document.
#[derive(Debug, PartialEq, Eq)]
pub enum Json {
    Null,
    Bool(bool),
    /// A non-negative integer.
    Unsigned(u64),
    /// An integer below zero.
    Negative(i64),
    /// Any other number.
    Real,
    Text(String),
    Array(Vec<Json>),
    /// The members of an object, each a key and its value.
    Object(Vec<(String, Json)>),
}

/// The mathematical value of a [`Json`] document.
pub enum JsonView {
    Null,
    Bool(bool),
    Unsigned(u64),
    Negative(i64),
    Real,
    Text(Seq<char>),
    Array(Seq<JsonView>),
    Object(Seq<(Seq<char>, JsonView)>),
}

/// The value of a document, taken level by level.
pub open spec fn tree_of(json: Json) -> JsonView
    decreases json,
{
    match json {
        Json::Null => JsonView::Null,
        Json::Bool(b) => JsonView::Bool(b),
        Json::Unsigned(n) => JsonView::Unsigned(n),
        Json::Negative(n) => JsonView::Negative(n),
        Json::Real => JsonView::Real,
        Json::Text(s) => JsonView::Text(s@),
        Json::Array(items) => JsonView::Array(
            Seq::new(
                items.len() as nat,
                |i: int|
                    if 0 <= i < items.len() {
                        tree_of(items[i])
                    } else {
                        JsonView::Null
                    },
            ),
        ),
        Json::Object(members) => JsonView::Object(
            Seq::new(
                members.len() as nat,
                |i: int|
                    if 0 <= i < members.len() {
                        (members[i].0@, tree_of(members[i].1))
                    } else {
                        (Seq::empty(), JsonView::Null)
                    },
            ),
        ),
    }
}

impl View for Json {
    type V = JsonView;

    open spec fn view(&self) -> JsonView {
        tree_of(*self)
    }
}

/// The value of the first member named `key`, if there is one.
pub open spec fn find_key(members: Seq<(Seq<char>, JsonView)>, key: Seq<char>) -> Option<JsonView>
    decreases members.len(),
{
    if members.len() == 0 {
        None
    } else if members[0].0 == key {
        Some(members[0].1)
    } else {
        find_key(members.drop_first(), key)
    }
}

impl JsonView {
    /// The member `key` of an object. A document that is no object has no members.
    pub open spec fn get(self, key: Seq<char>) -> Option<JsonView> {
        match self {
            JsonView::Object(members) => find_key(members, key),
            _ => None,
        }
    }

    /// The member `key`, or `Null` where there is none.
    pub open spec fn field(self, key: Seq<char>) -> JsonView {
        match self.get(key) {
            Some(value) => value,
            None => JsonView::Null,
        }
    }

    /// The characters of a string.
    pub open spec fn as_text(self) -> Option<Seq<char>> {
        match self {
            JsonView::Text(s) => Some(s),
            _ => None,
        }
    }

    /// An integer that fits `i64`.
    pub open spec fn as_signed(self) -> Option<i64> {
        match self {
            JsonView::Unsigned(n) => if n <= i64::MAX {
                Some(n as i64)
            } else {
                None
            },
            JsonView::Negative(n) => Some(n),
            _ => None,
        }
    }

    /// The elements of an array. A document that is no array has none.
    pub open spec fn items(self) -> Seq<JsonView> {
        match self {
            JsonView::Array(items) => items,
            _ => Seq::empty(),
        }
    }
}

impl Json {
    /// Parses a text as JSON.
    pub fn parse(text: &str) -> (parsed: Option<Json>)
        ensures
            match parsed {
                Some(json) => json_parse(text@) == Some(json@),
                None => json_parse(text@) is None,
            },
    {
        match value_from_text(text) {
            Some(value) => Some(json_of_value(&value)),
            None => None,
        }
    }

    /// Looks up the member `key` of an object.
    pub fn get(&self, key: &str) -> (found: Option<&Json>)
        ensures
            match found {
                Some(value) => self@.get(key@) == Some(value@),
                None => self@.get(key@) is None,
            },
    {
        match self {
            Json::Object(members) => {
                let wanted: String = key.to_owned();
                let ghost all = self@->Object_0;
                let mut i: usize = 0;
                assert(all.skip(0) == all);
                while i < members.len()
                    invariant
                        i <= members.len(),
                        wanted@ == key@,
                        self@.get(key@) == find_key(all, key@),
                        all.len() == members.len(),
                        forall|k: int|
                            0 <= k < members.len() ==> all[k] == (members[k].0@, members[k].1@),
                        find_key(all, key@) == find_key(all.skip(i as int), key@),
                    decreases members.len() - i,
                {
                    let ghost rest = all.skip(i as int);
                    assert(rest.drop_first() == all.skip(i as int + 1));
                    if members[i].0 == wanted {
                        return Some(&members[i].1);
                    }
                    i = i + 1;
                }
                None
            },
            _ => None,
        }
    }

    /// The string held by a `Text`.
    pub fn as_text(&self) -> (text: Option<&String>)
        ensures
            match text {
                Some(s) => self@.as_text() == Some(s@),
                None => self@.as_text() is None,
            },
    {
        match self {
            Json::Text(s) => Some(s),
            _ => None,
        }
    }

    /// The number held, where it is an integer that fits `i64`.
    pub fn as_signed(&self) -> (number: Option<i64>)
        ensures
            number == self@.as_signed(),
    {
        match self {
            Json::Unsigned(n) => {
                if *n <= 0x7fff_ffff_ffff_ffff {
                    Some(*n as i64)
                } else {
                    None
                }
            },
            Json::Negative(n) => Some(*n),
            _ => None,
        }
    }

    /// How many elements an array has; zero for any other document.
    pub fn count(&self) -> (n: usize)
        ensures
            n == self@.items().len(),
    {
        match self {
            Json::Array(items) => items.len(),
            _ => 0,
        }
    }

    /// The element at `index` of an array.
    pub fn item(&self, index: usize) -> (element: &Json)
        requires
            index < self@.items().len(),
        ensures
            element@ == self@.items()[index as int],
    {
        match self {
            Json::Array(items) => &items[index],
            _ => self,
        }
    }
}

} // verus!
