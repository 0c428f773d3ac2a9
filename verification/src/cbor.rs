//! CBOR items, read and written through `ciborium`.

use vstd::prelude::*;

verus! {

/// A CBOR item. Of the kinds that nothing here looks into, only the kind is kept.
#[derive(Debug, Eq, PartialEq)]
pub enum CborValue {
    Integer(i128),
    Bytes(Vec<u8>),
    Text(String),
    Array(Vec<CborValue>),
    Null,
    Bool,
    Float,
    Tag,
    Entries,
    Unknown,
}

/// What a CBOR item is, over mathematical integers and sequences.
pub enum CborView {
    Integer(int),
    Bytes(Seq<u8>),
    Text(Seq<char>),
    Array(Seq<CborView>),
    Null,
    Bool,
    Float,
    Tag,
    Entries,
    Unknown,
}

impl View for CborValue {
    type V = CborView;

    open spec fn view(&self) -> CborView
        decreases self,
    {
        match self {
            CborValue::Integer(value) => CborView::Integer(*value as int),
            CborValue::Bytes(bytes) => CborView::Bytes(bytes@),
            CborValue::Text(text) => CborView::Text(text@),
            CborValue::Array(items) => CborView::Array(
                Seq::new(
                    items@.len(),
                    |i: int|
                        if 0 <= i < items@.len() {
                            items@[i].view()
                        } else {
                            CborView::Null
                        },
                ),
            ),
            CborValue::Null => CborView::Null,
            CborValue::Bool => CborView::Bool,
            CborValue::Float => CborView::Float,
            CborValue::Tag => CborView::Tag,
            CborValue::Entries => CborView::Entries,
            CborValue::Unknown => CborView::Unknown,
        }
    }
}

/// Whether the item is made of unsigned integers, bytes, text, null and arrays of
/// such items, with at most `depth` of them inside one another.
pub open spec fn plain(value: CborView, depth: nat) -> bool
    decreases depth,
{
    depth > 0 && match value {
        CborView::Integer(number) => 0 <= number <= u64::MAX,
        CborView::Bytes(_) | CborView::Text(_) | CborView::Null => true,
        CborView::Array(items) => forall|i: int|
            0 <= i < items.len() ==> #[trigger] plain(items[i], (depth - 1) as nat),
        _ => false,
    }
}

/// How deep the items nest that are written here.
pub const MAX_WRITTEN_DEPTH: usize = 16;

/// The bytes that `ciborium::ser::into_writer` writes for an item.
pub uninterp spec fn cbor_encoded(value: CborView) -> Seq<u8>;

/// The item at the start of the bytes, or the message with which
/// `ciborium::de::from_reader` rejects them.
pub uninterp spec fn cbor_decoded(bytes: Seq<u8>) -> Result<CborView, Seq<char>>;

/// The item at the start of the bytes, where it nests no deeper than `limit`; none where
/// `ciborium::de::from_reader_with_recursion_limit` rejects them.
pub uninterp spec fn cbor_decoded_within(bytes: Seq<u8>, limit: nat) -> Option<CborView>;

/// What was read, or the message of the reader.
pub open spec fn reading(result: Result<CborValue, String>) -> Result<CborView, Seq<char>> {
    match result {
        Ok(value) => Ok(value@),
        Err(message) => Err(message@),
    }
}

/// The item that is read from the bytes, if there is one.
pub open spec fn written_item(bytes: Seq<u8>) -> Option<CborView> {
    match cbor_decoded(bytes) {
        Ok(value) => Some(value),
        Err(_) => None,
    }
}

/// An item as `ciborium` holds it; it is only carried through.
#[verifier::external_type_specification]
#[verifier::external_body]
pub struct ExValue(ciborium::Value);

/// One item of `ciborium`, kind for kind. Nothing is promised of the result.
#[verifier::external_body]
fn import(value: ciborium::Value) -> CborValue {
    match value {
        ciborium::Value::Integer(number) => CborValue::Integer(number.into()),
        ciborium::Value::Bytes(bytes) => CborValue::Bytes(bytes),
        ciborium::Value::Text(text) => CborValue::Text(text),
        ciborium::Value::Array(items) => CborValue::Array(items.into_iter().map(import).collect()),
        ciborium::Value::Null => CborValue::Null,
        ciborium::Value::Bool(_) => CborValue::Bool,
        ciborium::Value::Float(_) => CborValue::Float,
        ciborium::Value::Tag(_, _) => CborValue::Tag,
        ciborium::Value::Map(_) => CborValue::Entries,
        _ => CborValue::Unknown,
    }
}

/// One item for `ciborium`, kind for kind. Nothing is promised of the result.
#[verifier::external_body]
fn export(value: &CborValue) -> ciborium::Value {
    match value {
        CborValue::Integer(number) => (*number).into(),
        CborValue::Bytes(bytes) => ciborium::Value::Bytes(bytes.clone()),
        CborValue::Text(text) => ciborium::Value::Text(text.clone()),
        CborValue::Array(items) => ciborium::Value::Array(items.iter().map(export).collect()),
        _ => ciborium::Value::Null,
    }
}

/// `ciborium::ser::into_writer` on a vector: writing to memory does not fail, and
/// `ciborium::de::from_reader` gives back of the bytes the item that was written, as does
/// `ciborium::de::from_reader_with_recursion_limit` where the limit allows for its depth.
#[verifier::external_body]
pub(crate) fn into_writer(value: &CborValue) -> (result: Result<Vec<u8>, String>)
    requires
        plain(value@, MAX_WRITTEN_DEPTH as nat),
    ensures
        result is Ok,
        result->Ok_0@ == cbor_encoded(value@),
        written_item(result->Ok_0@) == Some(value@),
        forall|limit: nat|
            limit >= MAX_WRITTEN_DEPTH ==> #[trigger] cbor_decoded_within(result->Ok_0@, limit)
                == Some(value@),
{
    let mut bytes = Vec::new();
    ciborium::ser::into_writer(&export(value), &mut bytes).map_err(|error| error.to_string())?;
    Ok(bytes)
}

/// The view of an item that was read.
pub open spec fn item_view(item: Option<CborValue>) -> Option<CborView> {
    match item {
        Some(value) => Some(value@),
        None => None,
    }
}

/// `ciborium::de::from_reader_with_recursion_limit`; what its error says is dropped. It
/// recurses once for every level, so that the limit is at most the one that ciborium
/// itself sets.
#[verifier::external_body]
pub(crate) fn from_reader_within(bytes: &[u8], limit: usize) -> (item: Option<CborValue>)
    requires
        limit <= 256,
    ensures
        item_view(item) == cbor_decoded_within(bytes@, limit as nat),
{
    ciborium::de::from_reader_with_recursion_limit(bytes, limit).map(import).ok()
}

/// `ciborium::de::from_reader`, with the message of its error.
#[verifier::external_body]
pub(crate) fn from_reader(bytes: &[u8]) -> (result: Result<CborValue, String>)
    ensures
        reading(result) == cbor_decoded(bytes@),
{
    ciborium::de::from_reader(bytes).map(import).map_err(|error| error.to_string())
}

} // verus!
