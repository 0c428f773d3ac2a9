//! JSON values, read and written through `serde_json`.
//!
//! [`Json`] is a value that is looked into. Where a value is only carried through,
//! it stays a `serde_json::Value`.

use vstd::prelude::*;

verus! {

/// A JSON value that is only carried through.
#[verifier::external_type_specification]
#[verifier::external_body]
pub struct ExJsonValue(serde_json::Value);

/// A JSON number that is only carried through.
#[verifier::external_type_specification]
#[verifier::external_body]
pub struct ExJsonNumber(serde_json::Number);

/// `serde_json::Value::clone` copies the whole value.
pub assume_specification[ <serde_json::Value as Clone>::clone ](
    value: &serde_json::Value,
) -> (copy: serde_json::Value)
    ensures
        copy == *value,
;

/// `serde_json::Number::clone` copies the number.
pub assume_specification[ <serde_json::Number as Clone>::clone ](
    number: &serde_json::Number,
) -> (copy: serde_json::Number)
    ensures
        copy == *number,
;

/// A JSON value. An object is the list of its entries.
#[derive(Debug, PartialEq)]
pub enum Json {
    Null,
    Bool(bool),
    Unsigned(u64),
    Negative(i64),
    Real(serde_json::Number),
    Text(String),
    Array(Vec<Json>),
    Object(Vec<(String, Json)>),
}

/// What a JSON value is, over sequences.
pub enum JsonView {
    Null,
    Bool(bool),
    Unsigned(int),
    Negative(int),
    Real(serde_json::Number),
    Text(Seq<char>),
    Array(Seq<JsonView>),
    Object(Seq<Seq<char>>, Seq<JsonView>),
}

impl View for Json {
    type V = JsonView;

    open spec fn view(&self) -> JsonView
        decreases self,
    {
        match self {
            Json::Null => JsonView::Null,
            Json::Bool(value) => JsonView::Bool(*value),
            Json::Unsigned(value) => JsonView::Unsigned(*value as int),
            Json::Negative(value) => JsonView::Negative(*value as int),
            Json::Real(value) => JsonView::Real(*value),
            Json::Text(text) => JsonView::Text(text@),
            Json::Array(items) => JsonView::Array(
                Seq::new(
                    items@.len(),
                    |i: int|
                        if 0 <= i < items@.len() {
                            items@[i].view()
                        } else {
                            JsonView::Null
                        },
                ),
            ),
            Json::Object(entries) => JsonView::Object(
                Seq::new(entries@.len(), |i: int| entries@[i].0@),
                Seq::new(
                    entries@.len(),
                    |i: int|
                        if 0 <= i < entries@.len() {
                            entries@[i].1.view()
                        } else {
                            JsonView::Null
                        },
                ),
            ),
        }
    }
}

impl Json {
    /// A copy of the whole value.
    pub fn duplicate(&self) -> (copy: Json)
        ensures
            copy@ == self@,
        decreases self,
    {
        match self {
            Json::Null => Json::Null,
            Json::Bool(value) => Json::Bool(*value),
            Json::Unsigned(value) => Json::Unsigned(*value),
            Json::Negative(value) => Json::Negative(*value),
            Json::Real(value) => Json::Real(value.clone()),
            Json::Text(text) => Json::Text(text.clone()),
            Json::Array(items) => {
                let mut copies: Vec<Json> = Vec::new();
                let mut index: usize = 0;
                while index < items.len()
                    invariant
                        *self == Json::Array(*items),
                        index <= items@.len(),
                        copies@.len() == index,
                        forall|i: int| 0 <= i < index ==> (#[trigger] copies@[i])@ == items@[i]@,
                    decreases items.len() - index,
                {
                    assert(decreases_to!(*self => self->Array_0@[index as int]));
                    let copy = items[index].duplicate();
                    copies.push(copy);
                    index += 1;
                }
                proof {
                    lemma_arrays_agree(*items, copies);
                }
                Json::Array(copies)
            },
            Json::Object(entries) => {
                let mut copies: Vec<(String, Json)> = Vec::new();
                let mut index: usize = 0;
                while index < entries.len()
                    invariant
                        *self == Json::Object(*entries),
                        index <= entries@.len(),
                        copies@.len() == index,
                        forall|i: int|
                            0 <= i < index ==> (#[trigger] copies@[i]).0@ == entries@[i].0@
                                && copies@[i].1@ == entries@[i].1@,
                    decreases entries.len() - index,
                {
                    let entry = &entries[index];
                    assert(decreases_to!(*self => self->Object_0@[index as int].1));
                    let copy = entry.1.duplicate();
                    copies.push((entry.0.clone(), copy));
                    index += 1;
                }
                proof {
                    lemma_objects_agree(*entries, copies);
                }
                Json::Object(copies)
            },
        }
    }
}

/// Arrays whose items agree are the same value.
proof fn lemma_arrays_agree(items: Vec<Json>, copies: Vec<Json>)
    requires
        items@.len() == copies@.len(),
        forall|i: int| 0 <= i < items@.len() ==> (#[trigger] copies@[i])@ == items@[i]@,
    ensures
        Json::Array(items)@ == Json::Array(copies)@,
{
    let left = Json::Array(items)@->Array_0;
    let right = Json::Array(copies)@->Array_0;
    assert forall|i: int| 0 <= i < left.len() implies left[i] == right[i] by {
        assert(copies@[i]@ == items@[i]@);
    }
    assert(left =~= right);
}

/// Objects whose entries agree are the same value.
proof fn lemma_objects_agree(entries: Vec<(String, Json)>, copies: Vec<(String, Json)>)
    requires
        entries@.len() == copies@.len(),
        forall|i: int|
            0 <= i < entries@.len() ==> (#[trigger] copies@[i]).0@ == entries@[i].0@ && copies@[i].1@
                == entries@[i].1@,
    ensures
        Json::Object(entries)@ == Json::Object(copies)@,
{
    let left = Json::Object(entries)@;
    let right = Json::Object(copies)@;
    assert forall|i: int| 0 <= i < entries@.len() implies left->Object_1[i] == right->Object_1[i] by {
        assert(copies@[i].1@ == entries@[i].1@);
    }
    assert(left->Object_0 =~= right->Object_0);
    assert(left->Object_1 =~= right->Object_1);
}

/// Whether `left` comes before `right` in the order of their characters.
pub open spec fn text_before(left: Seq<char>, right: Seq<char>) -> bool {
    exists|i: int|
        0 <= i <= left.len() && i < right.len() && #[trigger] left.take(i) == right.take(i) && (i
            == left.len() || (left[i] as int) < (right[i] as int))
}

/// Whether a value is written and read back without loss: its numbers are whole, the
/// keys of its objects ascend, and at most `depth` values nest.
pub open spec fn lossless(value: JsonView, depth: nat) -> bool
    decreases depth,
{
    depth > 0 && match value {
        JsonView::Null | JsonView::Bool(_) | JsonView::Text(_) => true,
        JsonView::Unsigned(number) => 0 <= number <= u64::MAX,
        JsonView::Negative(number) => i64::MIN <= number < 0,
        JsonView::Real(_) => false,
        JsonView::Array(items) => forall|i: int|
            0 <= i < items.len() ==> #[trigger] lossless(items[i], (depth - 1) as nat),
        JsonView::Object(keys, values) => {
            &&& keys.len() == values.len()
            &&& forall|i: int, j: int|
                0 <= i < j < keys.len() ==> #[trigger] text_before(keys[i], keys[j])
            &&& forall|i: int|
                0 <= i < values.len() ==> #[trigger] lossless(values[i], (depth - 1) as nat)
        },
    }
}

/// How deep values nest that are read back without loss.
pub const MAX_JSON_DEPTH: usize = 127;

/// The value that `serde_json::from_str` reads from a text, or its error as a message.
pub uninterp spec fn json_parsed(text: Seq<char>) -> Result<JsonView, Seq<char>>;

/// The text that `serde_json::to_string` writes for a value.
pub uninterp spec fn json_printed(value: JsonView) -> Seq<char>;

/// What was read, or the message of the reader.
pub open spec fn json_reading(result: Result<Json, String>) -> Result<JsonView, Seq<char>> {
    match result {
        Ok(value) => Ok(value@),
        Err(message) => Err(message@),
    }
}

/// The value that is read from a text, if there is one.
pub open spec fn json_read(text: Seq<char>) -> Option<JsonView> {
    match json_parsed(text) {
        Ok(value) => Some(value),
        Err(_) => None,
    }
}

/// Whether a text stores a value: it is what is written for the value, and a lossless
/// value is read back from it.
pub open spec fn text_stores(value: JsonView, text: Seq<char>) -> bool {
    &&& text == json_printed(value)
    &&& lossless(value, MAX_JSON_DEPTH as nat) ==> json_read(text) == Some(value)
}

/// One value of `serde_json`, kind for kind. Nothing is promised of the result.
#[verifier::external_body]
fn import_json(value: serde_json::Value) -> Json {
    match value {
        serde_json::Value::Null => Json::Null,
        serde_json::Value::Bool(value) => Json::Bool(value),
        serde_json::Value::Number(number) => import_number(number),
        serde_json::Value::String(text) => Json::Text(text),
        serde_json::Value::Array(items) => {
            Json::Array(items.into_iter().map(import_json).collect())
        },
        serde_json::Value::Object(map) => {
            Json::Object(map.into_iter().map(|entry| (entry.0, import_json(entry.1))).collect())
        },
    }
}

/// One number of `serde_json`: a whole one by its value, another as it is. Nothing is
/// promised of the result.
#[verifier::external_body]
fn import_number(number: serde_json::Number) -> Json {
    match (number.as_u64(), number.as_i64()) {
        (Some(value), _) => Json::Unsigned(value),
        (None, Some(value)) => Json::Negative(value),
        (None, None) => Json::Real(number),
    }
}

/// One value for `serde_json`, kind for kind. Nothing is promised of the result.
#[verifier::external_body]
fn export_json(value: &Json) -> serde_json::Value {
    match value {
        Json::Null => serde_json::Value::Null,
        Json::Bool(value) => serde_json::Value::Bool(*value),
        Json::Unsigned(value) => serde_json::Value::from(*value),
        Json::Negative(value) => serde_json::Value::from(*value),
        Json::Real(number) => serde_json::Value::Number(number.clone()),
        Json::Text(text) => serde_json::Value::String(text.clone()),
        Json::Array(items) => serde_json::Value::Array(items.iter().map(export_json).collect()),
        Json::Object(entries) => {
            let pairs = entries.iter().map(|entry| (entry.0.clone(), export_json(&entry.1)));
            serde_json::Value::Object(pairs.collect())
        },
    }
}

/// `serde_json::from_str` into a value, with the message of its error.
#[verifier::external_body]
pub(crate) fn parse_json(text: &str) -> (result: Result<Json, String>)
    ensures
        json_reading(result) == json_parsed(text@),
{
    serde_json::from_str(text).map(import_json).map_err(|error| error.to_string())
}

/// What `serde_json::from_value` into a list of bytes says against a value; nothing where
/// it reads the bytes.
pub uninterp spec fn byte_array_refusal(value: JsonView) -> Seq<char>;

/// The message of the error of `serde_json::from_value` into a list of bytes; empty where
/// there is no error.
#[verifier::external_body]
pub(crate) fn refuse_byte_array(value: &Json) -> (message: String)
    ensures
        message@ == byte_array_refusal(value@),
{
    let read = serde_json::from_value::<Vec<u8>>(export_json(value));
    read.err().map(|error| error.to_string()).unwrap_or_default()
}

/// `serde_json::to_string` of a value, which does not fail. What it writes for a
/// lossless value, `serde_json::from_str` gives back; of other values, such as those
/// with a fraction, nothing of that kind is said.
#[verifier::external_body]
pub(crate) fn print_json(value: &Json) -> (result: Result<String, String>)
    ensures
        result is Ok,
        result->Ok_0@ == json_printed(value@),
        lossless(value@, MAX_JSON_DEPTH as nat) ==> json_read(result->Ok_0@) == Some(value@),
{
    serde_json::to_string(&export_json(value)).map_err(|error| error.to_string())
}

} // verus!
