//! JSON values as the command handlers read and write them. An integer is
//! held by its value (JSON text only yields integers that fit `u64` or
//! `i64`); a number with a fraction or exponent is held by its text, since
//! nothing here computes with it.
use crate::text::str_eq;
use vstd::prelude::*;

verus! {

/// A JSON value.
#[derive(Debug, PartialEq)]
pub enum JsonValue {
    Null,
    Bool(bool),
    Int(i128),
    Float(String),
    Str(String),
    Array(Vec<JsonValue>),
    Object(Vec<(String, JsonValue)>),
}

/// A JSON value with its texts as character sequences.
pub enum JsonModel {
    Null,
    Bool(bool),
    Int(int),
    Float(Seq<char>),
    Str(Seq<char>),
    Array(Seq<JsonModel>),
    Object(Seq<(Seq<char>, JsonModel)>),
}

/// The model of a JSON value.
pub open spec fn json_model(v: JsonValue) -> JsonModel
    decreases v,
{
    match v {
        JsonValue::Null => JsonModel::Null,
        JsonValue::Bool(b) => JsonModel::Bool(b),
        JsonValue::Int(n) => JsonModel::Int(n as int),
        JsonValue::Float(t) => JsonModel::Float(t@),
        JsonValue::Str(s) => JsonModel::Str(s@),
        JsonValue::Array(items) => JsonModel::Array(items_model(items@)),
        JsonValue::Object(entries) => JsonModel::Object(entries_model(entries@)),
    }
}

/// The models of array items.
pub open spec fn items_model(items: Seq<JsonValue>) -> Seq<JsonModel>
    decreases items,
{
    if items.len() == 0 {
        seq![]
    } else {
        items_model(items.subrange(0, items.len() - 1)).push(json_model(items[items.len() - 1]))
    }
}

/// The models of object entries.
pub open spec fn entries_model(entries: Seq<(String, JsonValue)>) -> Seq<(Seq<char>, JsonModel)>
    decreases entries,
{
    if entries.len() == 0 {
        seq![]
    } else {
        entries_model(entries.subrange(0, entries.len() - 1)).push(
            (entries[entries.len() - 1].0@, json_model(entries[entries.len() - 1].1)),
        )
    }
}

impl View for JsonValue {
    type V = JsonModel;

    open spec fn view(&self) -> JsonModel {
        json_model(*self)
    }
}

/// The value under `key` in the entries of an object (the first such entry).
pub open spec fn lookup(entries: Seq<(Seq<char>, JsonModel)>, key: Seq<char>) -> Option<JsonModel>
    decreases entries.len(),
{
    if entries.len() == 0 {
        None
    } else if entries[0].0 == key {
        Some(entries[0].1)
    } else {
        lookup(entries.drop_first(), key)
    }
}

/// `Value::get(key)`: the value under `key` when `v` is an object.
pub open spec fn json_get(v: JsonModel, key: Seq<char>) -> Option<JsonModel> {
    match v {
        JsonModel::Object(entries) => lookup(entries, key),
        _ => None,
    }
}

/// `Value::as_i64`: an integer that fits `i64`.
pub open spec fn json_as_i64(v: JsonModel) -> Option<i64> {
    match v {
        JsonModel::Int(n) => if i64::MIN <= n <= i64::MAX {
            Some(n as i64)
        } else {
            None
        },
        _ => None,
    }
}

/// `Value::as_u64`: a non-negative integer that fits `u64`.
pub open spec fn json_as_u64(v: JsonModel) -> Option<u64> {
    match v {
        JsonModel::Int(n) => if 0 <= n <= u64::MAX {
            Some(n as u64)
        } else {
            None
        },
        _ => None,
    }
}

/// `Value::as_str`: the text of a string.
pub open spec fn json_as_str(v: JsonModel) -> Option<Seq<char>> {
    match v {
        JsonModel::Str(s) => Some(s),
        _ => None,
    }
}

/// The integer under `key`, if it fits `i64`.
pub open spec fn i64_at(params: JsonModel, key: Seq<char>) -> Option<i64> {
    match json_get(params, key) {
        Some(v) => json_as_i64(v),
        None => None,
    }
}

/// The integer under `key`, if it fits `u64`.
pub open spec fn u64_at(params: JsonModel, key: Seq<char>) -> Option<u64> {
    match json_get(params, key) {
        Some(v) => json_as_u64(v),
        None => None,
    }
}

/// The text under `key`, if it is a string.
pub open spec fn str_at(params: JsonModel, key: Seq<char>) -> Option<Seq<char>> {
    match json_get(params, key) {
        Some(v) => json_as_str(v),
        None => None,
    }
}

proof fn lemma_entries_model_index(entries: Seq<(String, JsonValue)>, i: int)
    requires
        0 <= i < entries.len(),
    ensures
        entries_model(entries).len() == entries.len(),
        entries_model(entries)[i] == (entries[i].0@, json_model(entries[i].1)),
    decreases entries.len(),
{
    let init = entries.subrange(0, entries.len() - 1);
    lemma_entries_model_len(entries);
    lemma_entries_model_len(init);
    if i < entries.len() - 1 {
        lemma_entries_model_index(init, i);
        assert(init[i] == entries[i]);
    }
}

/// The model of a list of items holds the model of each item.
pub proof fn lemma_items_model(items: Seq<JsonValue>)
    ensures
        items_model(items).len() == items.len(),
        forall|i: int| 0 <= i < items.len() ==> #[trigger] items_model(items)[i] == json_model(items[i]),
    decreases items.len(),
{
    if items.len() > 0 {
        let init = items.subrange(0, items.len() - 1);
        lemma_items_model(init);
        assert forall|i: int| 0 <= i < items.len() implies #[trigger] items_model(items)[i]
            == json_model(items[i]) by {
            if i < items.len() - 1 {
                assert(init[i] == items[i]);
            }
        }
    }
}

proof fn lemma_entries_model_len(entries: Seq<(String, JsonValue)>)
    ensures
        entries_model(entries).len() == entries.len(),
    decreases entries.len(),
{
    if entries.len() > 0 {
        lemma_entries_model_len(entries.subrange(0, entries.len() - 1));
    }
}

proof fn lemma_lookup_skip(m: Seq<(Seq<char>, JsonModel)>, i: int, key: Seq<char>)
    requires
        0 <= i <= m.len(),
        forall|j: int| 0 <= j < i ==> (#[trigger] m[j]).0 != key,
    ensures
        lookup(m, key) == lookup(m.subrange(i, m.len() as int), key),
    decreases i,
{
    if i > 0 {
        assert(m.drop_first().subrange(i - 1, m.drop_first().len() as int) =~= m.subrange(
            i,
            m.len() as int,
        ));
        assert forall|j: int| 0 <= j < i - 1 implies (#[trigger] m.drop_first()[j]).0 != key by {
            assert(m.drop_first()[j] == m[j + 1]);
        }
        lemma_lookup_skip(m.drop_first(), i - 1, key);
    } else {
        assert(m.subrange(0, m.len() as int) =~= m);
    }
}

impl JsonValue {
    /// The value under `key` when this is an object.
    pub fn get<'a>(&'a self, key: &str) -> (r: Option<&'a JsonValue>)
        ensures
            match r {
                Some(v) => json_get(self@, key@) == Some(v@),
                None => json_get(self@, key@) is None,
            },
    {
        match self {
            JsonValue::Object(entries) => {
                let ghost m = entries_model(entries@);
                assert(json_model(*self) == JsonModel::Object(entries_model(entries@)));
                proof {
                    lemma_entries_model_len(entries@);
                }
                let mut i: usize = 0;
                while i < entries.len()
                    invariant
                        i <= entries.len(),
                        m == entries_model(entries@),
                        self@ == JsonModel::Object(m),
                        m.len() == entries.len(),
                        forall|j: int| 0 <= j < i ==> (#[trigger] m[j]).0 != key@,
                    decreases entries.len() - i,
                {
                    proof {
                        lemma_entries_model_index(entries@, i as int);
                    }
                    if str_eq(entries[i].0.as_str(), key) {
                        proof {
                            lemma_lookup_skip(m, i as int, key@);
                            assert(m.subrange(i as int, m.len() as int)[0] == m[i as int]);
                            assert(m[i as int].0 == key@);
                            assert(json_get(self@, key@) == lookup(m, key@));
                        }
                        return Some(&entries[i].1);
                    }
                    i = i + 1;
                }
                proof {
                    lemma_lookup_skip(m, i as int, key@);
                }
                None
            },
            _ => None,
        }
    }

    /// The integer, if this is one that fits `i64`.
    pub fn as_i64(&self) -> (r: Option<i64>)
        ensures
            r == json_as_i64(self@),
    {
        match self {
            JsonValue::Int(n) => if i64::MIN as i128 <= *n && *n <= i64::MAX as i128 {
                Some(*n as i64)
            } else {
                None
            },
            _ => None,
        }
    }

    /// The integer, if this is a non-negative one that fits `u64`.
    pub fn as_u64(&self) -> (r: Option<u64>)
        ensures
            r == json_as_u64(self@),
    {
        match self {
            JsonValue::Int(n) => if 0 <= *n && *n <= u64::MAX as i128 {
                Some(*n as u64)
            } else {
                None
            },
            _ => None,
        }
    }

    /// The text, if this is a string.
    pub fn as_str(&self) -> (r: Option<&str>)
        ensures
            match r {
                Some(s) => json_as_str(self@) == Some(s@),
                None => json_as_str(self@) is None,
            },
    {
        match self {
            JsonValue::Str(s) => Some(s.as_str()),
            _ => None,
        }
    }

    /// Whether this is an object.
    pub fn is_object(&self) -> (r: bool)
        ensures
            r == (self@ is Object),
    {
        match self {
            JsonValue::Object(_) => true,
            _ => false,
        }
    }
}

/// The integer under `key`, if it fits `i64`.
pub fn get_i64(params: &JsonValue, key: &str) -> (r: Option<i64>)
    ensures
        r == i64_at(params@, key@),
{
    match params.get(key) {
        Some(v) => v.as_i64(),
        None => None,
    }
}

/// The integer under `key`, if it fits `u64`.
pub fn get_u64(params: &JsonValue, key: &str) -> (r: Option<u64>)
    ensures
        r == u64_at(params@, key@),
{
    match params.get(key) {
        Some(v) => v.as_u64(),
        None => None,
    }
}

/// The text under `key`, if it is a string.
pub fn get_str<'a>(params: &'a JsonValue, key: &str) -> (r: Option<&'a str>)
    ensures
        match r {
            Some(s) => str_at(params@, key@) == Some(s@),
            None => str_at(params@, key@) is None,
        },
{
    match params.get(key) {
        Some(v) => v.as_str(),
        None => None,
    }
}

impl JsonValue {
    /// A copy of this value.
    pub fn duplicate(&self) -> (r: JsonValue)
        ensures
            r@ == self@,
        decreases self,
    {
        match self {
            JsonValue::Null => JsonValue::Null,
            JsonValue::Bool(b) => JsonValue::Bool(*b),
            JsonValue::Int(n) => JsonValue::Int(*n),
            JsonValue::Float(t) => JsonValue::Float(t.clone()),
            JsonValue::Str(t) => JsonValue::Str(t.clone()),
            JsonValue::Array(items) => {
                let mut out: Vec<JsonValue> = Vec::new();
                let mut i: usize = 0;
                while i < items.len()
                    invariant
                        i <= items.len(),
                        items_model(out@) == items_model(items@.subrange(0, i as int)),
                        *self == JsonValue::Array(*items),
                    decreases items.len() - i,
                {
                    assert(decreases_to!(*self => (*self)->Array_0));
                    assert(decreases_to!(*items => items@));
                    assert(decreases_to!(items@ => items@[i as int]));
                    let item = items[i].duplicate();
                    let ghost before = out@;
                    out.push(item);
                    assert(out@.subrange(0, out@.len() - 1) =~= before);
                    assert(items@.subrange(0, i + 1).subrange(0, i as int) =~= items@.subrange(0, i as int));
                    i = i + 1;
                }
                assert(items@.subrange(0, i as int) =~= items@);
                JsonValue::Array(out)
            },
            JsonValue::Object(entries) => {
                let mut out: Vec<(String, JsonValue)> = Vec::new();
                let mut i: usize = 0;
                while i < entries.len()
                    invariant
                        i <= entries.len(),
                        entries_model(out@) == entries_model(entries@.subrange(0, i as int)),
                        *self == JsonValue::Object(*entries),
                    decreases entries.len() - i,
                {
                    assert(decreases_to!(*self => (*self)->Object_0));
                    assert(decreases_to!(*entries => entries@));
                    assert(decreases_to!(entries@ => entries@[i as int]));
                    assert(decreases_to!(entries@[i as int] => entries@[i as int].1));
                    let value = entries[i].1.duplicate();
                    let key = entries[i].0.clone();
                    let ghost before = out@;
                    out.push((key, value));
                    assert(out@.subrange(0, out@.len() - 1) =~= before);
                    assert(entries@.subrange(0, i + 1).subrange(0, i as int) =~= entries@.subrange(0, i as int));
                    i = i + 1;
                }
                assert(entries@.subrange(0, i as int) =~= entries@);
                JsonValue::Object(out)
            },
        }
    }
}

// ---------------------------------------------------------------------------
// Building values
// ---------------------------------------------------------------------------

/// An object with the given entries.
pub fn object(entries: Vec<(String, JsonValue)>) -> (v: JsonValue)
    ensures
        v@ == JsonModel::Object(entries_model(entries@)),
{
    JsonValue::Object(entries)
}

/// Appends the entry `key: value` to a list of object entries.
pub fn push_entry(entries: &mut Vec<(String, JsonValue)>, key: &str, value: JsonValue)
    ensures
        entries_model(final(entries)@) == entries_model(old(entries)@).push((key@, value@)),
{
    let ghost before = entries@;
    entries.push((String::from_str(key), value));
    assert(entries@.subrange(0, entries@.len() - 1) =~= before);
}

/// A string value.
pub fn string_value(s: &str) -> (v: JsonValue)
    ensures
        v@ == JsonModel::Str(s@),
{
    JsonValue::Str(String::from_str(s))
}

} // verus!
