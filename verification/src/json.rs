//! A JSON document tree held as plain values, with the lookups the service
//! performs on request and response payloads.

use vstd::prelude::*;
use crate::text::str_eq;

verus! {

broadcast use vstd::std_specs::vec::group_vec_axioms;

/// A JSON value. Numbers keep their textual form; object entries keep their order.
pub enum JsonValue {
    Null,
    Bool(bool),
    Number(String),
    Str(String),
    Array(Vec<JsonValue>),
    Object(Vec<(String, JsonValue)>),
}

/// The mathematical model of a JSON value.
pub enum JsonView {
    Null,
    Bool(bool),
    Number(Seq<char>),
    Str(Seq<char>),
    Array(Seq<JsonView>),
    Object(Seq<(Seq<char>, JsonView)>),
}

/// The models of a sequence of values, element by element.
pub open spec fn view_items(items: Seq<JsonValue>) -> Seq<JsonView>
    decreases items,
{
    if items.len() == 0 {
        Seq::empty()
    } else {
        view_items(items.drop_last()).push(view_of(items.last()))
    }
}

/// The models of a sequence of object entries, entry by entry.
pub open spec fn view_entries(entries: Seq<(String, JsonValue)>) -> Seq<(Seq<char>, JsonView)>
    decreases entries,
{
    if entries.len() == 0 {
        Seq::empty()
    } else {
        view_entries(entries.drop_last()).push((entries.last().0@, view_of(entries.last().1)))
    }
}

/// The model of one value.
pub open spec fn view_of(v: JsonValue) -> JsonView
    decreases v,
{
    match v {
        JsonValue::Null => JsonView::Null,
        JsonValue::Bool(b) => JsonView::Bool(b),
        JsonValue::Number(s) => JsonView::Number(s@),
        JsonValue::Str(s) => JsonView::Str(s@),
        JsonValue::Array(items) => JsonView::Array(view_items(items@)),
        JsonValue::Object(entries) => JsonView::Object(view_entries(entries@)),
    }
}

impl View for JsonValue {
    type V = JsonView;

    open spec fn view(&self) -> JsonView {
        view_of(*self)
    }
}


/// The value of the first entry whose key is `key`.
pub open spec fn lookup(entries: Seq<(Seq<char>, JsonView)>, key: Seq<char>) -> Option<JsonView>
    decreases entries.len(),
{
    if entries.len() == 0 {
        None
    } else if entries[0].0 == key {
        Some(entries[0].1)
    } else {
        lookup(entries.drop_first(), key)
    }
}

impl JsonView {
    /// Member access on an object, as `serde_json::Value::get` with a string key:
    /// the value stored under `key`, and nothing for any value that is not an object.
    pub open spec fn get(self, key: Seq<char>) -> Option<JsonView> {
        match self {
            JsonView::Object(entries) => lookup(entries, key),
            _ => None,
        }
    }

    /// The text of a string value.
    pub open spec fn as_str(self) -> Option<Seq<char>> {
        match self {
            JsonView::Str(s) => Some(s),
            _ => None,
        }
    }

    /// The items of an array value.
    pub open spec fn as_array(self) -> Option<Seq<JsonView>> {
        match self {
            JsonView::Array(items) => Some(items),
            _ => None,
        }
    }

    /// `get(key)` followed by `as_str`.
    pub open spec fn get_str(self, key: Seq<char>) -> Option<Seq<char>> {
        match self.get(key) {
            Some(v) => v.as_str(),
            None => None,
        }
    }
}

/// The model of a sequence of values has one model per value, in order.
pub proof fn lemma_view_items(items: Seq<JsonValue>)
    ensures
        view_items(items).len() == items.len(),
        forall|i: int| 0 <= i < items.len() ==> #[trigger] view_items(items)[i] == view_of(items[i]),
    decreases items.len(),
{
    if items.len() > 0 {
        lemma_view_items(items.drop_last());
    }
}

/// The model of a sequence of entries has one model per entry, in order.
pub proof fn lemma_view_entries(entries: Seq<(String, JsonValue)>)
    ensures
        view_entries(entries).len() == entries.len(),
        forall|i: int|
            0 <= i < entries.len() ==> #[trigger] view_entries(entries)[i] == (
            entries[i].0@,
            view_of(entries[i].1),
        ),
    decreases entries.len(),
{
    if entries.len() > 0 {
        lemma_view_entries(entries.drop_last());
    }
}

/// Two sequences of values with equal models element by element have equal models.
pub proof fn lemma_view_items_ext(a: Seq<JsonValue>, b: Seq<JsonValue>)
    requires
        a.len() == b.len(),
        forall|i: int| 0 <= i < a.len() ==> view_of(#[trigger] a[i]) == view_of(b[i]),
    ensures
        view_items(a) == view_items(b),
{
    lemma_view_items(a);
    lemma_view_items(b);
    assert(view_items(a) =~= view_items(b));
}

/// Two sequences of entries with equal models entry by entry have equal models.
pub proof fn lemma_view_entries_ext(a: Seq<(String, JsonValue)>, b: Seq<(String, JsonValue)>)
    requires
        a.len() == b.len(),
        forall|i: int|
            0 <= i < a.len() ==> (#[trigger] a[i]).0@ == b[i].0@ && view_of(a[i].1) == view_of(
                b[i].1,
            ),
    ensures
        view_entries(a) == view_entries(b),
{
    lemma_view_entries(a);
    lemma_view_entries(b);
    assert(view_entries(a) =~= view_entries(b));
}

impl JsonValue {
    /// A copy of the value with the same model.
    pub fn duplicate(&self) -> (r: JsonValue)
        ensures
            r@ == self@,
        decreases self,
    {
        match self {
            JsonValue::Null => JsonValue::Null,
            JsonValue::Bool(b) => JsonValue::Bool(*b),
            JsonValue::Number(s) => JsonValue::Number(s.clone()),
            JsonValue::Str(s) => JsonValue::Str(s.clone()),
            JsonValue::Array(items) => {
                let mut out: Vec<JsonValue> = Vec::new();
                let mut i: usize = 0;
                while i < items.len()
                    invariant
                        *self == JsonValue::Array(*items),
                        i <= items@.len(),
                        out@.len() == i,
                        forall|j: int| 0 <= j < i ==> view_of(#[trigger] out@[j]) == view_of(items@[j]),
                    decreases items@.len() - i,
                {
                    proof {
                        assert(decreases_to!(*self => (*self)->Array_0));
                        assert(decreases_to!(*items => items[i as int]));
                        assert(decreases_to!(*self => items[i as int]));
                    }
                    let c = items[i].duplicate();
                    out.push(c);
                    i = i + 1;
                }
                proof {
                    lemma_view_items_ext(out@, items@);
                }
                JsonValue::Array(out)
            },
            JsonValue::Object(entries) => {
                let mut out: Vec<(String, JsonValue)> = Vec::new();
                let mut i: usize = 0;
                while i < entries.len()
                    invariant
                        *self == JsonValue::Object(*entries),
                        i <= entries@.len(),
                        out@.len() == i,
                        forall|j: int|
                            0 <= j < i ==> (#[trigger] out@[j]).0@ == entries@[j].0@ && view_of(
                                out@[j].1,
                            ) == view_of(entries@[j].1),
                    decreases entries@.len() - i,
                {
                    proof {
                        assert(decreases_to!(*self => (*self)->Object_0));
                        assert(decreases_to!(*entries => entries[i as int]));
                        assert(decreases_to!(entries[i as int] => entries[i as int].1));
                        assert(decreases_to!(*self => entries[i as int].1));
                    }
                    let k = entries[i].0.clone();
                    let c = entries[i].1.duplicate();
                    out.push((k, c));
                    i = i + 1;
                }
                proof {
                    lemma_view_entries_ext(out@, entries@);
                }
                JsonValue::Object(out)
            },
        }
    }

    /// Member access on an object: the value under `key`, as `serde_json::Value::get`.
    pub fn get(&self, key: &str) -> (r: Option<&JsonValue>)
        ensures
            match r {
                Some(v) => self@.get(key@) == Some(v@),
                None => self@.get(key@) is None,
            },
    {
        match self {
            JsonValue::Object(entries) => {
                let ghost ev = view_entries(entries@);
                proof {
                    lemma_view_entries(entries@);
                    assert(ev.skip(0) =~= ev);
                }
                let mut i: usize = 0;
                while i < entries.len()
                    invariant
                        *self == JsonValue::Object(*entries),
                        ev == view_entries(entries@),
                        ev.len() == entries@.len(),
                        forall|j: int|
                            0 <= j < entries@.len() ==> #[trigger] ev[j] == (
                                entries@[j].0@,
                                view_of(entries@[j].1),
                            ),
                        i <= entries@.len(),
                        lookup(ev, key@) == lookup(ev.skip(i as int), key@),
                    decreases entries@.len() - i,
                {
                    assert(ev.skip(i as int)[0] == ev[i as int]);
                    if str_eq(entries[i].0.as_str(), key) {
                        assert(self@ == JsonView::Object(ev));
                        assert(lookup(ev.skip(i as int), key@) == Some(ev[i as int].1));
                        return Some(&entries[i].1);
                    }
                    assert(ev.skip(i as int).drop_first() =~= ev.skip(i + 1));
                    i = i + 1;
                }
                None
            },
            _ => None,
        }
    }

    /// The text of a string value, as `serde_json::Value::as_str`.
    pub fn as_str(&self) -> (r: Option<&String>)
        ensures
            match r {
                Some(s) => self@.as_str() == Some(s@),
                None => self@.as_str() is None,
            },
    {
        match self {
            JsonValue::Str(s) => Some(s),
            _ => None,
        }
    }

    /// The items of an array value, as `serde_json::Value::as_array`.
    pub fn as_array(&self) -> (r: Option<&Vec<JsonValue>>)
        ensures
            match r {
                Some(items) => self@.as_array() == Some(view_items(items@)),
                None => self@.as_array() is None,
            },
    {
        match self {
            JsonValue::Array(items) => Some(items),
            _ => None,
        }
    }
}

} // verus!
