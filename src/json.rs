//! JSON documents as the library sees them.
use vstd::prelude::*;
use crate::text::{parse_u64, parse_u64_spec, same_text};

verus! {

/// A JSON document. Numbers are kept as they are written in JSON text, so
/// that no precision is lost on the way through the library.
#[derive(Debug)]
pub enum JsonValue {
    Null,
    Bool(bool),
    Number(String),
    Str(String),
    Array(Vec<JsonValue>),
    /// Members in document order.
    Object(Vec<(String, JsonValue)>),
}

/// The mathematical content of a `JsonValue`.
pub enum JsonModel {
    Null,
    Bool(bool),
    Number(Seq<char>),
    Str(Seq<char>),
    Array(Seq<JsonModel>),
    Object(Seq<(Seq<char>, JsonModel)>),
}

impl JsonValue {
    pub open spec fn model(&self) -> JsonModel
        decreases self,
    {
        match self {
            JsonValue::Null => JsonModel::Null,
            JsonValue::Bool(b) => JsonModel::Bool(*b),
            JsonValue::Number(t) => JsonModel::Number(t@),
            JsonValue::Str(s) => JsonModel::Str(s@),
            JsonValue::Array(items) => JsonModel::Array(
                Seq::new(
                    items.len() as nat,
                    |i: int|
                        if 0 <= i < items.len() {
                            items[i].model()
                        } else {
                            JsonModel::Null
                        },
                ),
            ),
            JsonValue::Object(entries) => JsonModel::Object(
                Seq::new(
                    entries.len() as nat,
                    |i: int|
                        if 0 <= i < entries.len() {
                            (entries[i].0@, entries[i].1.model())
                        } else {
                            (Seq::empty(), JsonModel::Null)
                        },
                ),
            ),
        }
    }
}

/// The value of the first member named `key`.
pub open spec fn member(entries: Seq<(Seq<char>, JsonModel)>, key: Seq<char>) -> Option<JsonModel>
    decreases entries.len(),
{
    if entries.len() == 0 {
        None
    } else if entries[0].0 == key {
        Some(entries[0].1)
    } else {
        member(entries.drop_first(), key)
    }
}

impl JsonModel {
    /// The member named `key` of an object.
    pub open spec fn field(self, key: Seq<char>) -> Option<JsonModel> {
        match self {
            JsonModel::Object(entries) => member(entries, key),
            _ => None,
        }
    }

    /// The characters of a string.
    pub open spec fn text(self) -> Option<Seq<char>> {
        match self {
            JsonModel::Str(s) => Some(s),
            _ => None,
        }
    }

    /// A number that is an unsigned 64-bit integer.
    pub open spec fn unsigned(self) -> Option<u64> {
        match self {
            JsonModel::Number(t) => parse_u64_spec(t),
            _ => None,
        }
    }

    /// An array all of whose items are strings, as the list of those strings.
    pub open spec fn text_list(self) -> Option<Seq<Seq<char>>> {
        match self {
            JsonModel::Array(items) => if forall|i: int| 0 <= i < items.len() ==> #[trigger] items[i] is Str {
                Some(items.map_values(|x: JsonModel| x->Str_0))
            } else {
                None
            },
            _ => None,
        }
    }
}

/// The views of a list of strings.
pub open spec fn texts(v: Seq<String>) -> Seq<Seq<char>> {
    v.map_values(|s: String| s@)
}

/// The model of an optional document.
pub open spec fn model_option(o: Option<JsonValue>) -> Option<JsonModel> {
    match o {
        Some(v) => Some(v.model()),
        None => None,
    }
}

/// The member `key` of `m`, read as an unsigned 64-bit integer.
pub open spec fn unsigned_field(m: JsonModel, key: Seq<char>) -> Option<u64> {
    match m.field(key) {
        Some(x) => x.unsigned(),
        None => None,
    }
}

/// The member `key` of `m`, read as a string.
pub open spec fn text_field(m: JsonModel, key: Seq<char>) -> Option<Seq<char>> {
    match m.field(key) {
        Some(x) => x.text(),
        None => None,
    }
}

/// The member `key` of `m`, read as a list of strings.
pub open spec fn text_list_field(m: JsonModel, key: Seq<char>) -> Option<Seq<Seq<char>>> {
    match m.field(key) {
        Some(x) => x.text_list(),
        None => None,
    }
}

/// The JSON array of the strings `items`.
pub open spec fn text_array(items: Seq<Seq<char>>) -> JsonModel {
    JsonModel::Array(items.map_values(|t: Seq<char>| JsonModel::Str(t)))
}

impl JsonValue {
    /// A JSON string.
    pub fn from_text(s: &str) -> (r: JsonValue)
        ensures
            r.model() == JsonModel::Str(s@),
    {
        JsonValue::Str(String::from_str(s))
    }

    /// A JSON array of strings.
    pub fn from_texts(items: &Vec<String>) -> (r: JsonValue)
        ensures
            r.model() == text_array(texts(items@)),
    {
        let mut out: Vec<JsonValue> = Vec::new();
        let mut i: usize = 0;
        while i < items.len()
            invariant
                0 <= i <= items.len(),
                out.len() == i,
                forall|j: int| 0 <= j < i ==> #[trigger] out@[j].model() == JsonModel::Str(items@[j]@),
            decreases items.len() - i,
        {
            out.push(JsonValue::Str(items[i].clone()));
            i = i + 1;
        }
        let r = JsonValue::Array(out);
        assert forall|j: int| 0 <= j < out.len() implies #[trigger] r.model()->Array_0[j]
            == text_array(texts(items@))->Array_0[j] by {
            assert(r.model()->Array_0[j] == out@[j].model());
        }
        assert(r.model()->Array_0 =~= text_array(texts(items@))->Array_0);
        r
    }

    /// The member named `key`, when `self` is an object that has one.
    pub fn get(&self, key: &str) -> (r: Option<&JsonValue>)
        ensures
            match r {
                Some(v) => self.model().field(key@) == Some(v.model()),
                None => self.model().field(key@) is None,
            },
    {
        match self {
            JsonValue::Object(entries) => {
                let ghost all = self.model()->Object_0;
                assert(all.skip(0) =~= all);
                let mut i: usize = 0;
                while i < entries.len()
                    invariant
                        all.len() == entries.len(),
                        all == self.model()->Object_0,
                        self is Object,
                        *entries == self->Object_0,
                        0 <= i <= entries.len(),
                        member(all, key@) == member(all.skip(i as int), key@),
                    decreases entries.len() - i,
                {
                    assert(all.skip(i as int)[0] == all[i as int]);
                    assert(all.skip(i as int).drop_first() =~= all.skip(i + 1));
                    if same_text(entries[i].0.as_str(), key) {
                        return Some(&entries[i].1);
                    }
                    i = i + 1;
                }
                assert(all.skip(i as int) =~= Seq::<(Seq<char>, JsonModel)>::empty());
                None
            },
            _ => None,
        }
    }

    /// The text of a string value.
    pub fn as_text(&self) -> (r: Option<&String>)
        ensures
            match r {
                Some(s) => self.model().text() == Some(s@),
                None => self.model().text() is None,
            },
    {
        match self {
            JsonValue::Str(s) => Some(s),
            _ => None,
        }
    }

    /// A number that is an unsigned 64-bit integer.
    pub fn as_u64(&self) -> (r: Option<u64>)
        ensures
            r == self.model().unsigned(),
    {
        match self {
            JsonValue::Number(t) => parse_u64(t.as_str()),
            _ => None,
        }
    }

    /// An array all of whose items are strings, as a list of those strings.
    pub fn to_text_list(&self) -> (r: Option<Vec<String>>)
        ensures
            match r {
                Some(v) => self.model().text_list() == Some(texts(v@)),
                None => self.model().text_list() is None,
            },
    {
        match self {
            JsonValue::Array(items) => {
                let ghost m = self.model()->Array_0;
                assert(forall|j: int| 0 <= j < m.len() ==> #[trigger] m[j] == items@[j].model());
                let mut out: Vec<String> = Vec::new();
                let mut i: usize = 0;
                while i < items.len()
                    invariant
                        m == self.model()->Array_0,
                        self is Array,
                        *items == self->Array_0,
                        m.len() == items.len(),
                        forall|j: int| 0 <= j < m.len() ==> #[trigger] m[j] == items@[j].model(),
                        0 <= i <= items.len(),
                        out.len() == i,
                        forall|j: int| 0 <= j < i ==> #[trigger] m[j] is Str && m[j]->Str_0 == out@[j]@,
                    decreases items.len() - i,
                {
                    match &items[i] {
                        JsonValue::Str(s) => {
                            out.push(s.clone());
                        },
                        _ => {
                            assert(!(m[i as int] is Str));
                            return None;
                        },
                    }
                    i = i + 1;
                }
                assert(texts(out@) =~= m.map_values(|x: JsonModel| x->Str_0));
                Some(out)
            },
            _ => None,
        }
    }

    /// A copy of `self`.
    pub fn deep_copy(&self) -> (r: JsonValue)
        ensures
            r.model() == self.model(),
        decreases self,
    {
        match self {
            JsonValue::Null => JsonValue::Null,
            JsonValue::Bool(b) => JsonValue::Bool(*b),
            JsonValue::Number(t) => JsonValue::Number(t.clone()),
            JsonValue::Str(s) => JsonValue::Str(s.clone()),
            JsonValue::Array(items) => {
                let mut out: Vec<JsonValue> = Vec::new();
                let mut i: usize = 0;
                while i < items.len()
                    invariant
                        self is Array,
                        *items == self->Array_0,
                        0 <= i <= items.len(),
                        out.len() == i,
                        forall|j: int| 0 <= j < i ==> #[trigger] out@[j].model() == items@[j].model(),
                    decreases items.len() - i,
                {
                    assert(decreases_to!(self => items[i as int]));
                    out.push(items[i].deep_copy());
                    i = i + 1;
                }
                let r = JsonValue::Array(out);
                assert forall|j: int| 0 <= j < out.len() implies #[trigger] r.model()->Array_0[j]
                    == self.model()->Array_0[j] by {
                    assert(r.model()->Array_0[j] == out@[j].model());
                    assert(self.model()->Array_0[j] == items@[j].model());
                }
                assert(r.model()->Array_0 =~= self.model()->Array_0);
                r
            },
            JsonValue::Object(entries) => {
                let mut out: Vec<(String, JsonValue)> = Vec::new();
                let mut i: usize = 0;
                while i < entries.len()
                    invariant
                        self is Object,
                        *entries == self->Object_0,
                        0 <= i <= entries.len(),
                        out.len() == i,
                        forall|j: int|
                            0 <= j < i ==> #[trigger] out@[j].0@ == entries@[j].0@ && out@[j].1.model()
                                == entries@[j].1.model(),
                    decreases entries.len() - i,
                {
                    assert(decreases_to!(self => entries[i as int].1));
                    let value = entries[i].1.deep_copy();
                    out.push((entries[i].0.clone(), value));
                    i = i + 1;
                }
                let r = JsonValue::Object(out);
                assert forall|j: int| 0 <= j < out.len() implies #[trigger] r.model()->Object_0[j]
                    == self.model()->Object_0[j] by {
                    assert(r.model()->Object_0[j] == (out@[j].0@, out@[j].1.model()));
                    assert(self.model()->Object_0[j] == (entries@[j].0@, entries@[j].1.model()));
                }
                assert(r.model()->Object_0 =~= self.model()->Object_0);
                r
            },
        }
    }
}

} // verus!
