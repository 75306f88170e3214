//! JSON values as plain data: what request bodies are built from and what
//! response bodies are read as.

use crate::text::same_text;
use vstd::prelude::*;

verus! {

/// A JSON value. An object keeps its fields in the order given.
#[derive(Debug, PartialEq, Eq)]
pub enum Json {
    Null,
    Bool(bool),
    Number(i64),
    Text(String),
    List(Vec<Json>),
    Object(Vec<(String, Json)>),
}

/// The mathematical value of a [`Json`].
pub enum JsonView {
    Null,
    Bool(bool),
    Number(int),
    Text(Seq<char>),
    List(Seq<JsonView>),
    Object(Seq<(Seq<char>, JsonView)>),
}

/// The views of a list of values, in order.
pub open spec fn item_views(items: Seq<Json>) -> Seq<JsonView>
    decreases items,
{
    Seq::new(
        items.len(),
        |i: int|
            if 0 <= i < items.len() {
                items[i].view()
            } else {
                JsonView::Null
            },
    )
}

/// The views of a list of fields, in order.
pub open spec fn field_views(fields: Seq<(String, Json)>) -> Seq<(Seq<char>, JsonView)>
    decreases fields,
{
    Seq::new(
        fields.len(),
        |i: int|
            if 0 <= i < fields.len() {
                (fields[i].0@, fields[i].1.view())
            } else {
                (Seq::empty(), JsonView::Null)
            },
    )
}

impl View for Json {
    type V = JsonView;

    open spec fn view(&self) -> JsonView
        decreases self,
    {
        match self {
            Json::Null => JsonView::Null,
            Json::Bool(b) => JsonView::Bool(*b),
            Json::Number(n) => JsonView::Number(*n as int),
            Json::Text(text) => JsonView::Text(text@),
            Json::List(items) => JsonView::List(item_views(items@)),
            Json::Object(fields) => JsonView::Object(field_views(fields@)),
        }
    }
}

/// The value of the first field named `key`, if there is one.
pub open spec fn lookup(fields: Seq<(Seq<char>, JsonView)>, key: Seq<char>) -> Option<JsonView>
    decreases fields.len(),
{
    if fields.len() == 0 {
        None
    } else if fields[0].0 == key {
        Some(fields[0].1)
    } else {
        lookup(fields.drop_first(), key)
    }
}

impl JsonView {
    /// The value of the field `key` of an object; `None` for any other value
    /// and for an object without that field.
    pub open spec fn get(self, key: Seq<char>) -> Option<JsonView> {
        match self {
            JsonView::Object(fields) => lookup(fields, key),
            _ => None,
        }
    }

    /// The text of a string value; `None` for any other value.
    pub open spec fn as_text(self) -> Option<Seq<char>> {
        match self {
            JsonView::Text(text) => Some(text),
            _ => None,
        }
    }

    /// The items of an array; `None` for any other value.
    pub open spec fn as_list(self) -> Option<Seq<JsonView>> {
        match self {
            JsonView::List(items) => Some(items),
            _ => None,
        }
    }
}

/// An object with one field.
pub open spec fn object1(k0: Seq<char>, v0: JsonView) -> JsonView {
    JsonView::Object(seq![(k0, v0)])
}

/// An object with two fields.
pub open spec fn object2(k0: Seq<char>, v0: JsonView, k1: Seq<char>, v1: JsonView) -> JsonView {
    JsonView::Object(seq![(k0, v0), (k1, v1)])
}

proof fn lemma_lookup_skip(fields: Seq<(Seq<char>, JsonView)>, key: Seq<char>, n: int)
    requires
        0 <= n <= fields.len(),
        forall|k: int| 0 <= k < n ==> (#[trigger] fields[k]).0 != key,
    ensures
        lookup(fields, key) == lookup(fields.skip(n), key),
    decreases n,
{
    if n > 0 {
        lemma_lookup_skip(fields, key, n - 1);
        let rest = fields.skip(n - 1);
        assert(rest[0] == fields[n - 1]);
        assert(rest.drop_first() =~= fields.skip(n));
    } else {
        assert(fields.skip(0) =~= fields);
    }
}

impl Json {
    /// A string value.
    pub fn text(text: &str) -> (json: Json)
        ensures
            json@ == JsonView::Text(text@),
    {
        Json::Text(text.to_owned())
    }

    /// An object with one field.
    pub fn object1(k0: &str, v0: Json) -> (json: Json)
        ensures
            json@ == object1(k0@, v0@),
    {
        let fields: Vec<(String, Json)> = vec![(k0.to_owned(), v0)];
        assert(field_views(fields@) =~= seq![(k0@, v0@)]);
        Json::Object(fields)
    }

    /// An object with two fields.
    pub fn object2(k0: &str, v0: Json, k1: &str, v1: Json) -> (json: Json)
        ensures
            json@ == object2(k0@, v0@, k1@, v1@),
    {
        let fields: Vec<(String, Json)> = vec![(k0.to_owned(), v0), (k1.to_owned(), v1)];
        assert(field_views(fields@) =~= seq![(k0@, v0@), (k1@, v1@)]);
        Json::Object(fields)
    }

    /// An array of the given items.
    pub fn list(items: Vec<Json>) -> (json: Json)
        ensures
            json@ == JsonView::List(item_views(items@)),
    {
        Json::List(items)
    }

    /// The value of the field `key` of an object: of the first such field,
    /// should the object hold the key twice. `None` for any other value and
    /// for an object without that field.
    pub fn get(&self, key: &str) -> (found: Option<&Json>)
        ensures
            match found {
                Some(value) => self@.get(key@) == Some(value@),
                None => self@.get(key@) is None,
            },
    {
        match self {
            Json::Object(fields) => {
                let mut i: usize = 0;
                while i < fields.len()
                    invariant
                        i <= fields.len(),
                        self == Json::Object(*fields),
                        forall|k: int|
                            0 <= k < i ==> (#[trigger] field_views(fields@)[k]).0 != key@,
                    decreases fields.len() - i,
                {
                    proof {
                        lemma_lookup_skip(field_views(fields@), key@, i as int);
                        assert(field_views(fields@).skip(i as int)[0] == field_views(
                            fields@,
                        )[i as int]);
                    }
                    if same_text(fields[i].0.as_str(), key) {
                        return Some(&fields[i].1);
                    }
                    i += 1;
                }
                proof {
                    lemma_lookup_skip(field_views(fields@), key@, i as int);
                }
                None
            },
            _ => None,
        }
    }

    /// The text of a string value; `None` for any other value.
    pub fn as_str(&self) -> (text: Option<&str>)
        ensures
            match text {
                Some(t) => self@.as_text() == Some(t@),
                None => self@.as_text() is None,
            },
    {
        match self {
            Json::Text(text) => Some(text.as_str()),
            _ => None,
        }
    }

    /// The items of an array; `None` for any other value.
    pub fn as_array(&self) -> (items: Option<&Vec<Json>>)
        ensures
            match items {
                Some(list) => self@.as_list() == Some(item_views(list@)),
                None => self@.as_list() is None,
            },
    {
        match self {
            Json::List(items) => Some(items),
            _ => None,
        }
    }
}

} // verus!
