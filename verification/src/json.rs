//! The JSON values that the `snow` command line prints, held as plain data.
//!
//! The output of `snow sql --format JSON_EXT` is an array of records; each
//! record maps column names to values. A value is held by what the library
//! reads of it: its kind, its text, and for numbers the `i64` it denotes when
//! it has one. Nested arrays and objects are held by their compact JSON text,
//! which is all that is ever shown of them.

use vstd::prelude::*;
use serde_json::Value;
use crate::text::{str_eq, str_to_string};

verus! {

/// A JSON number: its JSON text and, when the number is an integer that fits
/// in an `i64`, that integer.
#[derive(Debug)]
pub struct JsonNumber {
    pub text: String,
    pub as_i64: Option<i64>,
}

/// A JSON value as one field of a record.
#[derive(Debug)]
pub enum JsonValue {
    Null,
    Bool(bool),
    Number(JsonNumber),
    String(String),
    /// A nested array, by its compact JSON text.
    Array(String),
    /// A nested object, by its compact JSON text.
    Object(String),
}

/// The mathematical content of a [`JsonValue`].
pub enum JsonValueView {
    Null,
    Bool(bool),
    Number(Seq<char>, Option<i64>),
    String(Seq<char>),
    Array(Seq<char>),
    Object(Seq<char>),
}

impl View for JsonValue {
    type V = JsonValueView;

    open spec fn view(&self) -> JsonValueView {
        match self {
            JsonValue::Null => JsonValueView::Null,
            JsonValue::Bool(b) => JsonValueView::Bool(*b),
            JsonValue::Number(n) => JsonValueView::Number(n.text@, n.as_i64),
            JsonValue::String(s) => JsonValueView::String(s@),
            JsonValue::Array(t) => JsonValueView::Array(t@),
            JsonValue::Object(t) => JsonValueView::Object(t@),
        }
    }
}

impl Clone for JsonValue {
    fn clone(&self) -> (r: Self)
        ensures
            r@ == self@,
    {
        match self {
            JsonValue::Null => JsonValue::Null,
            JsonValue::Bool(b) => JsonValue::Bool(*b),
            JsonValue::Number(n) => JsonValue::Number(
                JsonNumber { text: n.text.clone(), as_i64: n.as_i64 },
            ),
            JsonValue::String(s) => JsonValue::String(s.clone()),
            JsonValue::Array(t) => JsonValue::Array(t.clone()),
            JsonValue::Object(t) => JsonValue::Object(t.clone()),
        }
    }
}

/// One element of the top-level array: a JSON object with its fields in
/// order, or any other JSON value (which has no fields).
#[derive(Debug)]
pub enum JsonRecord {
    Object(Vec<(String, JsonValue)>),
    Other,
}

/// The mathematical content of a [`JsonRecord`]: `None` for a value that is
/// not an object.
pub open spec fn record_view(r: JsonRecord) -> Option<Seq<(Seq<char>, JsonValueView)>> {
    match r {
        JsonRecord::Object(fields) => Some(
            fields@.map_values(|f: (String, JsonValue)| (f.0@, f.1@)),
        ),
        JsonRecord::Other => None,
    }
}

/// A whole document: an array of records, or any other JSON value.
#[derive(Debug)]
pub enum JsonDocument {
    Array(Vec<JsonRecord>),
    Other,
}

/// The records of a document: those of the top-level array, or none when the
/// document is not an array.
pub open spec fn document_records(d: JsonDocument) -> Seq<Option<Seq<(Seq<char>, JsonValueView)>>> {
    match d {
        JsonDocument::Array(rs) => rs@.map_values(|r: JsonRecord| record_view(r)),
        JsonDocument::Other => Seq::empty(),
    }
}

/// What `serde_json::from_str` makes of a text, as records: `None` when the
/// text is not JSON; otherwise the elements of the top-level array (none
/// when the value is not an array), each object as its fields in the order
/// `serde_json` gives them and any other element as `None`. Numbers carry
/// `serde_json`'s text of the number and its `i64` when it has one; nested
/// arrays and objects carry their compact JSON text.
pub uninterp spec fn json_text_records(text: Seq<char>) -> Option<Seq<Option<Seq<(Seq<char>, JsonValueView)>>>>;

impl JsonValue {
    /// A number with its JSON text and its `i64`, when it has one.
    pub fn number(text: String, as_i64: Option<i64>) -> (r: JsonValue)
        ensures
            r@ == JsonValueView::Number(text@, as_i64),
    {
        JsonValue::Number(JsonNumber { text, as_i64 })
    }

    /// A nested array (or else object) by its compact JSON text.
    pub fn nested(is_array: bool, text: String) -> (r: JsonValue)
        ensures
            r@ == (if is_array {
                JsonValueView::Array(text@)
            } else {
                JsonValueView::Object(text@)
            }),
    {
        if is_array {
            JsonValue::Array(text)
        } else {
            JsonValue::Object(text)
        }
    }
}

/// A record: an object with these fields, or any other value.
pub fn record_of(fields: Option<Vec<(String, JsonValue)>>) -> (r: JsonRecord)
    ensures
        record_view(r) == (match fields {
            Some(f) => Some(f@.map_values(|x: (String, JsonValue)| (x.0@, x.1@))),
            None => None,
        }),
{
    match fields {
        Some(f) => JsonRecord::Object(f),
        None => JsonRecord::Other,
    }
}

/// A document: the array of these records, or any other value.
pub fn document_of(records: Option<Vec<JsonRecord>>) -> (r: JsonDocument)
    ensures
        document_records(r) == (match records {
            Some(rs) => rs@.map_values(|x: JsonRecord| record_view(x)),
            None => Seq::empty(),
        }),
{
    match records {
        Some(rs) => JsonDocument::Array(rs),
        None => JsonDocument::Other,
    }
}

/// Calls `serde_json::from_str` on the text and converts the value it
/// returns, one for one, into a document. The contract claims that the
/// call fails exactly when `json_text_records` is `None`, and that the
/// records of the document are `json_text_records` of the text.
#[verifier::external_body]
pub(crate) fn parse_json_document(text: &str) -> (r: Option<JsonDocument>)
    ensures
        r is None <==> json_text_records(text@) is None,
        r matches Some(d) ==> json_text_records(text@) == Some(document_records(d)),
{
    let v: Value = serde_json::from_str(text).ok()?;
    let f = |x: &Value| match x {
        Value::Null => JsonValue::Null,
        Value::Bool(b) => JsonValue::Bool(*b),
        Value::Number(n) => JsonValue::number(n.to_string(), n.as_i64()),
        Value::String(s) => JsonValue::String(s.clone()),
        _ => JsonValue::nested(x.is_array(), x.to_string()),
    };
    Some(document_of(v.as_array().map(|a| a.iter().map(|i| record_of(i.as_object().map(|m| m.iter().map(|(k, x)| (k.clone(), f(x))).collect()))).collect())))
}

/// The value of the first field named `key` among `fields`.
pub open spec fn lookup_field(fields: Seq<(Seq<char>, JsonValueView)>, key: Seq<char>) -> Option<
    JsonValueView,
>
    decreases fields.len(),
{
    if fields.len() == 0 {
        None
    } else if fields[0].0 == key {
        Some(fields[0].1)
    } else {
        lookup_field(fields.drop_first(), key)
    }
}

/// `record.get(key)`: the value of field `key`, or nothing when the record is
/// not an object or has no such field.
pub open spec fn record_get(rec: Option<Seq<(Seq<char>, JsonValueView)>>, key: Seq<char>) -> Option<
    JsonValueView,
> {
    match rec {
        Some(fields) => lookup_field(fields, key),
        None => None,
    }
}

/// `value.as_str()`: the text of a JSON string.
pub open spec fn value_as_str(v: Option<JsonValueView>) -> Option<Seq<char>> {
    match v {
        Some(JsonValueView::String(s)) => Some(s),
        _ => None,
    }
}

/// `record.get(key).and_then(|v| v.as_str())`.
pub open spec fn record_get_str(rec: Option<Seq<(Seq<char>, JsonValueView)>>, key: Seq<char>) -> Option<
    Seq<char>,
> {
    value_as_str(record_get(rec, key))
}

/// The value of the field `key` among `fields` (the first with that name).
pub fn lookup<'a>(fields: &'a Vec<(String, JsonValue)>, key: &str) -> (r: Option<&'a JsonValue>)
    ensures
        match r {
            Some(v) => lookup_field(
                fields@.map_values(|f: (String, JsonValue)| (f.0@, f.1@)),
                key@,
            ) == Some(v@),
            None => lookup_field(
                fields@.map_values(|f: (String, JsonValue)| (f.0@, f.1@)),
                key@,
            ) is None,
        },
{
    let ghost view = fields@.map_values(|f: (String, JsonValue)| (f.0@, f.1@));
    let mut i: usize = 0;
    assert(view.subrange(0, view.len() as int) =~= view);
    while i < fields.len()
        invariant
            i <= fields@.len(),
            view == fields@.map_values(|f: (String, JsonValue)| (f.0@, f.1@)),
            lookup_field(view, key@) == lookup_field(view.subrange(i as int, view.len() as int), key@),
        decreases fields@.len() - i,
    {
        let ghost rest = view.subrange(i as int, view.len() as int);
        assert(rest.drop_first() =~= view.subrange(i + 1, view.len() as int));
        if str_eq(fields[i].0.as_str(), key) {
            return Some(&fields[i].1);
        }
        i += 1;
    }
    None
}

/// `record.get(key)`.
pub fn record_lookup<'a>(rec: &'a JsonRecord, key: &str) -> (r: Option<&'a JsonValue>)
    ensures
        match r {
            Some(v) => record_get(record_view(*rec), key@) == Some(v@),
            None => record_get(record_view(*rec), key@) is None,
        },
{
    match rec {
        JsonRecord::Object(fields) => lookup(fields, key),
        JsonRecord::Other => None,
    }
}

/// `record.get(key).and_then(|v| v.as_str())`.
pub fn record_lookup_str<'a>(rec: &'a JsonRecord, key: &str) -> (r: Option<&'a String>)
    ensures
        match r {
            Some(s) => record_get_str(record_view(*rec), key@) == Some(s@),
            None => record_get_str(record_view(*rec), key@) is None,
        },
{
    match record_lookup(rec, key) {
        Some(JsonValue::String(s)) => Some(s),
        _ => None,
    }
}

/// How a value is shown in tables and detail views: `NULL` for null, the
/// text of a string without quotes, and the JSON text of anything else.
pub open spec fn display_text(v: JsonValueView) -> Seq<char> {
    match v {
        JsonValueView::Null => "NULL"@,
        JsonValueView::Bool(b) => if b {
            "true"@
        } else {
            "false"@
        },
        JsonValueView::Number(t, _) => t,
        JsonValueView::String(s) => s,
        JsonValueView::Array(t) => t,
        JsonValueView::Object(t) => t,
    }
}

/// How a value is written to a CSV cell: like [`display_text`] except that
/// null is the empty string.
pub open spec fn csv_text(v: JsonValueView) -> Seq<char> {
    match v {
        JsonValueView::Null => Seq::empty(),
        _ => display_text(v),
    }
}

/// Format a JSON value for display in tables and detail views.
pub fn format_value(value: &JsonValue) -> (s: String)
    ensures
        s@ == display_text(value@),
{
    match value {
        JsonValue::Null => {
            proof {
                reveal_strlit("NULL");
            }
            str_to_string("NULL")
        },
        JsonValue::Bool(b) => {
            proof {
                reveal_strlit("true");
                reveal_strlit("false");
            }
            if *b {
                str_to_string("true")
            } else {
                str_to_string("false")
            }
        },
        JsonValue::Number(n) => n.text.clone(),
        JsonValue::String(s) => s.clone(),
        JsonValue::Array(t) => t.clone(),
        JsonValue::Object(t) => t.clone(),
    }
}

/// The text of a value in an exported CSV file (before quoting).
pub fn format_csv_value(value: &JsonValue) -> (s: String)
    ensures
        s@ == csv_text(value@),
{
    match value {
        JsonValue::Null => String::new(),
        _ => format_value(value),
    }
}

} // verus!
