//! JSON values as the documents are made of them, and their text form, which
//! `serde_json` reads and writes.

use vstd::prelude::*;
use crate::kind::{same_text, ShapeError};

verus! {

/// A JSON value.
#[derive(Debug, PartialEq, Eq)]
pub enum Json {
    Null,
    Bool(bool),
    /// A number. It carries its value where that is a whole number of 64
    /// bits with a sign; any other number - a fraction, an exponent form, a
    /// greater whole number - is `Number(None)`, which is written as `null`.
    Number(Option<i64>),
    Text(String),
    Array(Vec<Json>),
    /// An object: its entries in order. Where a key occurs twice, the later
    /// entry counts.
    Object(Vec<(String, Json)>),
}

/// What a `Json` stands for.
pub enum JsonModel {
    Null,
    Bool(bool),
    Number(Option<i64>),
    Text(Seq<char>),
    Array(Seq<JsonModel>),
    Object(Seq<(Seq<char>, JsonModel)>),
}

impl View for Json {
    type V = JsonModel;

    open spec fn view(&self) -> JsonModel {
        json_model(*self)
    }
}

/// What a value stands for.
pub open spec fn json_model(doc: Json) -> JsonModel
    decreases doc,
{
    match doc {
        Json::Null => JsonModel::Null,
        Json::Bool(b) => JsonModel::Bool(b),
        Json::Number(n) => JsonModel::Number(n),
        Json::Text(s) => JsonModel::Text(s@),
        Json::Array(items) => JsonModel::Array(items_model(items@)),
        Json::Object(entries) => JsonModel::Object(entries_model(entries@)),
    }
}

/// What a list of values stands for: item by item what each stands for.
pub open spec fn items_model(items: Seq<Json>) -> Seq<JsonModel>
    decreases items,
{
    if items.len() == 0 {
        Seq::empty()
    } else {
        items_model(items.drop_last()).push(json_model(items.last()))
    }
}

/// What a list of entries stands for: entry by entry the key and what the
/// value stands for.
pub open spec fn entries_model(entries: Seq<(String, Json)>) -> Seq<(Seq<char>, JsonModel)>
    decreases entries,
{
    if entries.len() == 0 {
        Seq::empty()
    } else {
        entries_model(entries.drop_last()).push((entries.last().0@, json_model(entries.last().1)))
    }
}

/// The model of a list has the list's length, and holds at each place what
/// the item there stands for.
pub proof fn lemma_items_model(items: Seq<Json>)
    ensures
        items_model(items).len() == items.len(),
        forall|i: int| 0 <= i < items.len() ==> (#[trigger] items_model(items)[i]) == items[i]@,
    decreases items.len(),
{
    if items.len() > 0 {
        lemma_items_model(items.drop_last());
    }
}

/// The model of a list of entries has the list's length, and holds at each
/// place the key of the entry there and what its value stands for.
pub proof fn lemma_entries_model(entries: Seq<(String, Json)>)
    ensures
        entries_model(entries).len() == entries.len(),
        forall|i: int|
            0 <= i < entries.len() ==> (#[trigger] entries_model(entries)[i]) == (
                entries[i].0@,
                entries[i].1@,
            ),
    decreases entries.len(),
{
    if entries.len() > 0 {
        lemma_entries_model(entries.drop_last());
    }
}

/// Adding an item to a list adds what it stands for to the model.
pub proof fn lemma_items_model_push(items: Seq<Json>, item: Json)
    ensures
        items_model(items.push(item)) == items_model(items).push(item@),
{
    assert(items.push(item).drop_last() =~= items);
}

/// Adding an entry to a list adds its key and what its value stands for to
/// the model.
pub proof fn lemma_entries_model_push(entries: Seq<(String, Json)>, entry: (String, Json))
    ensures
        entries_model(entries.push(entry)) == entries_model(entries).push((entry.0@, entry.1@)),
{
    assert(entries.push(entry).drop_last() =~= entries);
}

/// The value under `key` in the entries of an object: that of the last entry
/// with this key, if there is one.
pub open spec fn field(entries: Seq<(Seq<char>, JsonModel)>, key: Seq<char>) -> Option<JsonModel>
    decreases entries.len(),
{
    if entries.len() == 0 {
        None
    } else if entries.last().0 == key {
        Some(entries.last().1)
    } else {
        field(entries.drop_last(), key)
    }
}

/// An entry added at the end is the one found under its key; under any other
/// key, what was found before is found still.
pub proof fn lemma_field_push(
    entries: Seq<(Seq<char>, JsonModel)>,
    entry: (Seq<char>, JsonModel),
    key: Seq<char>,
)
    ensures
        field(entries.push(entry), key) == if entry.0 == key {
            Some(entry.1)
        } else {
            field(entries, key)
        },
{
    assert(entries.push(entry).drop_last() =~= entries);
}

/// `serde_json::Value`, the form in which `serde_json` holds a JSON value.
/// Nothing is said of what is inside: it only passes through the two
/// converters below.
#[verifier::external_type_specification]
#[verifier::external_body]
pub struct ExValue(serde_json::Value);

/// `serde_json::Error`, with which `serde_json::from_str` turns a text down.
/// Nothing is said of what is inside.
#[verifier::external_type_specification]
#[verifier::external_body]
pub struct ExError(serde_json::Error);

/// The JSON value that `serde_json::from_str` reads from a text; `None` for
/// a text that it does not accept.
pub uninterp spec fn json_of_text(text: Seq<char>) -> Option<JsonModel>;

/// The text that `serde_json` writes for a JSON value, in its compact form.
pub uninterp spec fn text_of_json(doc: JsonModel) -> Seq<char>;

/// Copies a `serde_json::Value` into a `Json`, variant by variant, for
/// `parse_text`. A number is asked for its value with `Number::as_i64`; the
/// entries of an object come in the order in which `Map::iter` hands them
/// out. Nothing is claimed of the result.
#[verifier::external_body]
fn from_value(value: &serde_json::Value) -> Json {
    match value {
        serde_json::Value::Null => Json::Null,
        serde_json::Value::Bool(b) => Json::Bool(*b),
        serde_json::Value::Number(n) => Json::Number(n.as_i64()),
        serde_json::Value::String(s) => Json::Text(s.clone()),
        serde_json::Value::Array(items) => Json::Array(items.iter().map(from_value).collect()),
        serde_json::Value::Object(map) => Json::Object(
            map.iter().map(|(k, v)| (k.clone(), from_value(v))).collect(),
        ),
    }
}

/// Copies a `Json` into a `serde_json::Value`, variant by variant, for
/// `print_text`. A number goes through `Value::from`, the entries of an
/// object go one after the other through `Map::insert`. Nothing is claimed of
/// the result.
#[verifier::external_body]
fn to_value(doc: &Json) -> serde_json::Value {
    match doc {
        Json::Null => serde_json::Value::Null,
        Json::Bool(b) => serde_json::Value::Bool(*b),
        Json::Number(Some(n)) => serde_json::Value::from(*n),
        Json::Number(None) => serde_json::Value::Null,
        Json::Text(s) => serde_json::Value::String(s.clone()),
        Json::Array(items) => serde_json::Value::Array(items.iter().map(to_value).collect()),
        Json::Object(entries) => {
            let mut map = serde_json::Map::new();
            for (k, v) in entries.iter() {
                map.insert(k.clone(), to_value(v));
            }
            serde_json::Value::Object(map)
        },
    }
}

/// Calls `serde_json::from_str` for a `serde_json::Value` and copies what it
/// gives into a `Json`. The contract says only that the outcome is the one
/// that `json_of_text` names for this text: which texts are accepted, and as
/// what, is `serde_json`'s to decide.
#[verifier::external_body]
fn parse_text(text: &str) -> (r: Result<Json, serde_json::Error>)
    ensures
        match r {
            Ok(doc) => json_of_text(text@) == Some(doc@),
            Err(_) => json_of_text(text@) is None,
        },
{
    match serde_json::from_str::<serde_json::Value>(text) {
        Ok(value) => Ok(from_value(&value)),
        Err(e) => Err(e),
    }
}

/// Copies a `Json` into a `serde_json::Value` and formats that with its
/// `Display` impl, which writes the compact form. The contract says only
/// that the text is the one that `text_of_json` names for this value.
#[verifier::external_body]
fn print_text(doc: &Json) -> (text: String)
    ensures
        text@ == text_of_json(doc@),
{
    to_value(doc).to_string()
}

impl Json {
    /// Reads a JSON text. A text that is no JSON is a `MalformedDocument`.
    pub fn from_text(text: &str) -> (r: Result<Json, ShapeError>)
        ensures
            match json_of_text(text@) {
                Some(doc) => r matches Ok(j) && j@ == doc,
                None => r matches Err(e) && e == ShapeError::MalformedDocument,
            },
    {
        match parse_text(text) {
            Ok(doc) => Ok(doc),
            Err(_) => Err(ShapeError::MalformedDocument),
        }
    }

    /// Writes the value as JSON text.
    pub fn to_text(&self) -> (text: String)
        ensures
            text@ == text_of_json(self@),
    {
        print_text(self)
    }
}

/// Looks a key up in the entries of an object.
pub fn find<'a>(entries: &'a Vec<(String, Json)>, key: &str) -> (r: Option<&'a Json>)
    ensures
        match r {
            Some(value) => field(entries_model(entries@), key@) == Some(value@),
            None => field(entries_model(entries@), key@) is None,
        },
{
    let ghost model = entries_model(entries@);
    let mut i: usize = entries.len();
    proof {
        lemma_entries_model(entries@);
    }
    assert(model.take(i as int) =~= model);
    while i > 0
        invariant
            i <= entries.len(),
            model == entries_model(entries@),
            model.len() == entries.len(),
            forall|k: int|
                0 <= k < entries.len() ==> (#[trigger] model[k]) == (entries@[k].0@, entries@[k].1@),
            field(model, key@) == field(model.take(i as int), key@),
        decreases i,
    {
        i = i - 1;
        assert(model.take(i + 1).drop_last() =~= model.take(i as int));
        if same_text(entries[i].0.as_str(), key) {
            return Some(&entries[i].1);
        }
    }
    None
}

} // verus!
