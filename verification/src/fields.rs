//! Reading the members of a JSON object as typed fields.
//!
//! A required field must be present and of the right kind. An optional field
//! may be absent or `null`, which both read as `None`; present with any other
//! kind of value than the expected one, it is an error like a bad required
//! field. Each reader returns `None` for the error, so an optional field reads
//! as an `Option` inside an `Option`.

use crate::json::{Json, JsonView};
use vstd::prelude::*;

verus! {

/// Whether every element is a string.
pub open spec fn all_text(items: Seq<JsonView>) -> bool {
    forall|i: int| 0 <= i < items.len() ==> (#[trigger] items[i]) is Text
}

/// The strings of a sequence of `Text` elements.
pub open spec fn texts_of(items: Seq<JsonView>) -> Seq<Seq<char>> {
    Seq::new(items.len(), |i: int| items[i]->Text_0)
}

impl JsonView {
    /// A field that must hold a string.
    pub open spec fn required_text(self, key: Seq<char>) -> Option<Seq<char>> {
        match self.get(key) {
            Some(JsonView::Text(s)) => Some(s),
            _ => None,
        }
    }

    /// A field that may hold a string.
    pub open spec fn optional_text(self, key: Seq<char>) -> Option<Option<Seq<char>>> {
        match self.get(key) {
            None => Some(None),
            Some(JsonView::Null) => Some(None),
            Some(JsonView::Text(s)) => Some(Some(s)),
            _ => None,
        }
    }

    /// A field that must hold a non-negative integer.
    pub open spec fn required_number(self, key: Seq<char>) -> Option<u64> {
        match self.get(key) {
            Some(JsonView::Unsigned(n)) => Some(n),
            _ => None,
        }
    }

    /// A field that may hold a non-negative integer.
    pub open spec fn optional_number(self, key: Seq<char>) -> Option<Option<u64>> {
        match self.get(key) {
            None => Some(None),
            Some(JsonView::Null) => Some(None),
            Some(JsonView::Unsigned(n)) => Some(Some(n)),
            _ => None,
        }
    }

    /// A field that must hold a boolean.
    pub open spec fn required_flag(self, key: Seq<char>) -> Option<bool> {
        match self.get(key) {
            Some(JsonView::Bool(b)) => Some(b),
            _ => None,
        }
    }

    /// A field that may hold a boolean.
    pub open spec fn optional_flag(self, key: Seq<char>) -> Option<Option<bool>> {
        match self.get(key) {
            None => Some(None),
            Some(JsonView::Null) => Some(None),
            Some(JsonView::Bool(b)) => Some(Some(b)),
            _ => None,
        }
    }

    /// A field that must hold an array of strings.
    pub open spec fn required_texts(self, key: Seq<char>) -> Option<Seq<Seq<char>>> {
        match self.get(key) {
            Some(JsonView::Array(items)) => if all_text(items) {
                Some(texts_of(items))
            } else {
                None
            },
            _ => None,
        }
    }
}

impl Json {
    /// Reads a field that must hold a string.
    pub fn required_text(&self, key: &str) -> (field: Option<String>)
        ensures
            match field {
                Some(s) => self@.required_text(key@) == Some(s@),
                None => self@.required_text(key@) is None,
            },
    {
        match self.get(key) {
            Some(Json::Text(s)) => Some(s.clone()),
            _ => None,
        }
    }

    /// Reads a field that may hold a string.
    pub fn optional_text(&self, key: &str) -> (field: Option<Option<String>>)
        ensures
            match field {
                Some(Some(s)) => self@.optional_text(key@) == Some(Some(s@)),
                Some(None) => self@.optional_text(key@) == Some(None::<Seq<char>>),
                None => self@.optional_text(key@) is None,
            },
    {
        match self.get(key) {
            None => Some(None),
            Some(Json::Null) => Some(None),
            Some(Json::Text(s)) => Some(Some(s.clone())),
            _ => None,
        }
    }

    /// Reads a field that must hold a non-negative integer.
    pub fn required_number(&self, key: &str) -> (field: Option<u64>)
        ensures
            field == self@.required_number(key@),
    {
        match self.get(key) {
            Some(Json::Unsigned(n)) => Some(*n),
            _ => None,
        }
    }

    /// Reads a field that may hold a non-negative integer.
    pub fn optional_number(&self, key: &str) -> (field: Option<Option<u64>>)
        ensures
            field == self@.optional_number(key@),
    {
        match self.get(key) {
            None => Some(None),
            Some(Json::Null) => Some(None),
            Some(Json::Unsigned(n)) => Some(Some(*n)),
            _ => None,
        }
    }

    /// Reads a field that must hold a boolean.
    pub fn required_flag(&self, key: &str) -> (field: Option<bool>)
        ensures
            field == self@.required_flag(key@),
    {
        match self.get(key) {
            Some(Json::Bool(b)) => Some(*b),
            _ => None,
        }
    }

    /// Reads a field that may hold a boolean.
    pub fn optional_flag(&self, key: &str) -> (field: Option<Option<bool>>)
        ensures
            field == self@.optional_flag(key@),
    {
        match self.get(key) {
            None => Some(None),
            Some(Json::Null) => Some(None),
            Some(Json::Bool(b)) => Some(Some(*b)),
            _ => None,
        }
    }

    /// Reads a field that must hold an array of strings.
    pub fn required_texts(&self, key: &str) -> (field: Option<Vec<String>>)
        ensures
            match field {
                Some(list) => self@.required_texts(key@) == Some(list.deep_view()),
                None => self@.required_texts(key@) is None,
            },
    {
        match self.get(key) {
            Some(Json::Array(items)) => {
                let ghost all = self@.get(key@).unwrap()->Array_0;
                let mut list: Vec<String> = Vec::new();
                let mut i: usize = 0;
                while i < items.len()
                    invariant
                        i <= items.len(),
                        self@.get(key@) == Some(JsonView::Array(all)),
                        all.len() == items.len(),
                        forall|k: int| 0 <= k < items.len() ==> all[k] == items[k]@,
                        list.len() == i,
                        forall|k: int| 0 <= k < i ==> (#[trigger] all[k]) is Text,
                        forall|k: int| 0 <= k < i ==> (#[trigger] list[k])@ == all[k]->Text_0,
                    decreases items.len() - i,
                {
                    match &items[i] {
                        Json::Text(s) => {
                            list.push(s.clone());
                        },
                        _ => {
                            assert(!(all[i as int] is Text));
                            return None;
                        },
                    }
                    i = i + 1;
                }
                Some(list)
            },
            _ => None,
        }
    }
}

} // verus!
