//! The storage engine's rules: what may be committed, in which form payloads are
//! stored, and how stored rows are read back.
//!
//! A commit is planned as a script of storage actions, to be performed in order in
//! one transaction. A payload that the engine itself writes is an envelope, an object
//! under a reserved key; a domain payload that holds that key is stored in an
//! envelope too, so that no domain payload is ever taken for one.

use vstd::prelude::*;

use crate::job::JobStoreError;
use crate::json::{
    byte_array_refusal, lossless, text_before, Json, JsonView, MAX_JSON_DEPTH,
};
use crate::text::same_text;

verus! {

/// The key that marks an envelope.
pub const ENGINE_PAYLOAD_KEY: &'static str = "$event-sorcery-engine";

/// The version of the envelopes that are written.
pub const ENGINE_PAYLOAD_VERSION: u8 = 1;

/// Which stream an event belongs to.
#[derive(Debug, Eq, PartialEq)]
pub struct StreamIdentity {
    pub aggregate_type: String,
    pub aggregate_id: String,
}

/// A stream identity as sequences of characters.
pub struct StreamView {
    pub aggregate_type: Seq<char>,
    pub aggregate_id: Seq<char>,
}

impl View for StreamIdentity {
    type V = StreamView;

    open spec fn view(&self) -> StreamView {
        StreamView { aggregate_type: self.aggregate_type@, aggregate_id: self.aggregate_id@ }
    }
}

impl Clone for StreamIdentity {
    fn clone(&self) -> (copy: Self)
        ensures
            copy == *self,
    {
        Self { aggregate_type: self.aggregate_type.clone(), aggregate_id: self.aggregate_id.clone() }
    }
}

/// An event as it is stored.
#[derive(Debug, PartialEq)]
pub struct SerializedEvent {
    pub aggregate_id: String,
    pub sequence: usize,
    pub aggregate_type: String,
    pub event_type: String,
    pub event_version: String,
    pub payload: Json,
    pub metadata: Json,
}

/// What a stored event says.
pub struct EventView {
    pub stream: StreamView,
    pub sequence: usize,
    pub event_type: Seq<char>,
    pub event_version: Seq<char>,
    pub payload: JsonView,
    pub metadata: JsonView,
}

impl View for SerializedEvent {
    type V = EventView;

    open spec fn view(&self) -> EventView {
        EventView {
            stream: StreamView {
                aggregate_type: self.aggregate_type@,
                aggregate_id: self.aggregate_id@,
            },
            sequence: self.sequence,
            event_type: self.event_type@,
            event_version: self.event_version@,
            payload: self.payload@,
            metadata: self.metadata@,
        }
    }
}

/// The views of stored events.
pub open spec fn event_views(events: Seq<SerializedEvent>) -> Seq<EventView> {
    events.map_values(|event: SerializedEvent| event@)
}

/// A snapshot as it is stored.
#[derive(Debug, PartialEq)]
pub struct SerializedSnapshot {
    pub aggregate_id: String,
    pub aggregate: Json,
    pub current_sequence: usize,
    pub current_snapshot: usize,
}

/// A snapshot to store with the events that it covers.
#[derive(Debug, PartialEq)]
pub struct SnapshotUpdate {
    pub aggregate: Json,
    pub snapshot_version: usize,
}

impl SnapshotUpdate {
    pub fn new(aggregate: Json, snapshot_version: usize) -> (update: Self)
        ensures
            update.aggregate == aggregate,
            update.snapshot_version == snapshot_version,
    {
        Self { aggregate, snapshot_version }
    }
}

/// An event as a reader of pages gets it.
#[derive(Debug, PartialEq)]
pub struct LoadedEvent {
    pub sequence: usize,
    pub event_type: String,
    pub event_version: String,
    pub payload: LoadedPayload,
}

/// What a stored payload stands for.
#[derive(Debug, PartialEq)]
pub enum LoadedPayload {
    /// A domain payload.
    Json(Json),
    /// Bytes of a language binding.
    OpaqueBytes(Vec<u8>),
}

/// What a stored payload stands for, as a view.
pub enum LoadedPayloadView {
    Json(JsonView),
    OpaqueBytes(Seq<u8>),
}

impl View for LoadedPayload {
    type V = LoadedPayloadView;

    open spec fn view(&self) -> LoadedPayloadView {
        match self {
            LoadedPayload::Json(value) => LoadedPayloadView::Json(value@),
            LoadedPayload::OpaqueBytes(bytes) => LoadedPayloadView::OpaqueBytes(bytes@),
        }
    }
}

/// How the payloads of a commit are given.
#[derive(Clone, Copy, Debug, Eq, PartialEq, Structural)]
pub enum CommitPayloadEncoding {
    /// Domain payloads.
    NativeJson,
    /// Arrays of bytes.
    OpaqueBytes,
}

/// What an envelope holds.
#[derive(Debug, PartialEq)]
pub enum EnginePayload {
    OpaqueBytes(Vec<u8>),
    EscapedJson(Json),
}

/// What an envelope holds, as a view.
pub enum EnginePayloadView {
    OpaqueBytes(Seq<u8>),
    EscapedJson(JsonView),
}

impl View for EnginePayload {
    type V = EnginePayloadView;

    open spec fn view(&self) -> EnginePayloadView {
        match self {
            EnginePayload::OpaqueBytes(bytes) => EnginePayloadView::OpaqueBytes(bytes@),
            EnginePayload::EscapedJson(value) => EnginePayloadView::EscapedJson(value@),
        }
    }
}

/// Why a text or a value is not of the form that it must have.
#[derive(Debug)]
pub enum JsonFailure {
    /// What the reader or the writer of JSON says.
    Reader(String),
    /// The value stands for an envelope and is none.
    Envelope(Json),
}

/// Why a text or a value is not of the form that it must have, as a view.
pub enum JsonFailureView {
    Reader(Seq<char>),
    Envelope(JsonView),
}

impl View for JsonFailure {
    type V = JsonFailureView;

    open spec fn view(&self) -> JsonFailureView {
        match self {
            JsonFailure::Reader(message) => JsonFailureView::Reader(message@),
            JsonFailure::Envelope(value) => JsonFailureView::Envelope(value@),
        }
    }
}

/// Why the engine refuses.
#[derive(Debug)]
pub enum EngineError {
    /// The stream is ahead of the writer.
    OptimisticLock { expected_version: usize, actual_version: usize },
    /// An event's sequence does not follow on the one before.
    NonContiguousSequences { expected_version: usize, offending: usize },
    /// An envelope of another version was stored.
    UnsupportedPayloadVersion { version: u8 },
    /// A snapshot covers no event.
    EmptySnapshotUpdate,
    /// An event belongs to another stream.
    StreamIdentityMismatch { expected: StreamIdentity, actual: StreamIdentity },
    /// One event alone is over the byte limit of a page.
    EventPageTooLarge { observed: usize, limit: usize },
    /// A text or a value is not of the form that it must have.
    Json(JsonFailure),
    /// A number does not fit its type.
    Integer,
    /// A job cannot be enqueued.
    JobFlush(JobStoreError),
}

/// Why the engine refuses, as a view.
pub enum EngineErrorView {
    OptimisticLock { expected_version: usize, actual_version: usize },
    NonContiguousSequences { expected_version: usize, offending: usize },
    UnsupportedPayloadVersion { version: u8 },
    EmptySnapshotUpdate,
    StreamIdentityMismatch { expected: StreamView, actual: StreamView },
    EventPageTooLarge { observed: usize, limit: usize },
    Json(JsonFailureView),
    Integer,
    JobFlush(JobStoreError),
}

impl View for EngineError {
    type V = EngineErrorView;

    open spec fn view(&self) -> EngineErrorView {
        match self {
            EngineError::OptimisticLock { expected_version, actual_version } => {
                EngineErrorView::OptimisticLock {
                    expected_version: *expected_version,
                    actual_version: *actual_version,
                }
            },
            EngineError::NonContiguousSequences { expected_version, offending } => {
                EngineErrorView::NonContiguousSequences {
                    expected_version: *expected_version,
                    offending: *offending,
                }
            },
            EngineError::UnsupportedPayloadVersion { version } => {
                EngineErrorView::UnsupportedPayloadVersion { version: *version }
            },
            EngineError::EmptySnapshotUpdate => EngineErrorView::EmptySnapshotUpdate,
            EngineError::StreamIdentityMismatch { expected, actual } => {
                EngineErrorView::StreamIdentityMismatch { expected: expected@, actual: actual@ }
            },
            EngineError::EventPageTooLarge { observed, limit } => {
                EngineErrorView::EventPageTooLarge { observed: *observed, limit: *limit }
            },
            EngineError::Json(failure) => EngineErrorView::Json(failure@),
            EngineError::Integer => EngineErrorView::Integer,
            EngineError::JobFlush(error) => EngineErrorView::JobFlush(*error),
        }
    }
}

impl StreamIdentity {
    pub fn new<Kind: Into<String>, Name: Into<String>>(
        aggregate_type: Kind,
        aggregate_id: Name,
    ) -> (stream: Self)
        ensures
            call_ensures(Kind::into, (aggregate_type,), stream.aggregate_type),
            call_ensures(Name::into, (aggregate_id,), stream.aggregate_id),
    {
        Self { aggregate_type: aggregate_type.into(), aggregate_id: aggregate_id.into() }
    }

    /// Whether the event belongs to the stream.
    pub fn matches(&self, event: &SerializedEvent) -> (same: bool)
        ensures
            same <==> self@ == event@.stream,
    {
        self.aggregate_type == event.aggregate_type && self.aggregate_id == event.aggregate_id
    }

    /// The stream that the event belongs to.
    pub fn from_event(event: &SerializedEvent) -> (stream: Self)
        ensures
            stream@ == event@.stream,
    {
        Self {
            aggregate_type: event.aggregate_type.clone(),
            aggregate_id: event.aggregate_id.clone(),
        }
    }
}

/// The object with one entry.
pub open spec fn single_entry(key: Seq<char>, value: JsonView) -> JsonView {
    JsonView::Object(seq![key], seq![value])
}

/// The array of numbers that stands for bytes.
pub open spec fn byte_array(bytes: Seq<u8>) -> JsonView {
    JsonView::Array(bytes.map_values(|byte: u8| JsonView::Unsigned(byte as int)))
}

/// Whether the value is a number that fits a byte.
pub open spec fn is_byte(value: JsonView) -> bool {
    value matches JsonView::Unsigned(number) && 0 <= number <= 255
}

/// The bytes that an array of numbers stands for, if the value is one.
pub open spec fn bytes_from(value: JsonView) -> Option<Seq<u8>> {
    match value {
        JsonView::Array(items) => if forall|i: int|
            0 <= i < items.len() ==> is_byte(#[trigger] items[i]) {
            Some(Seq::new(items.len(), |i: int| items[i]->Unsigned_0 as u8))
        } else {
            None
        },
        _ => None,
    }
}

/// The envelope that is stored for a payload.
pub open spec fn enveloped(payload: EnginePayloadView) -> JsonView {
    let content = match payload {
        EnginePayloadView::OpaqueBytes(bytes) => single_entry("opaque_bytes"@, byte_array(bytes)),
        EnginePayloadView::EscapedJson(value) => single_entry("escaped_json"@, value),
    };
    single_entry(
        ENGINE_PAYLOAD_KEY@,
        JsonView::Object(
            seq!["payload"@, "version"@],
            seq![content, JsonView::Unsigned(ENGINE_PAYLOAD_VERSION as int)],
        ),
    )
}

/// Whether an object holds the reserved key.
pub open spec fn reserves(payload: JsonView) -> bool {
    payload matches JsonView::Object(keys, _) && exists|i: int|
        0 <= i < keys.len() && #[trigger] keys[i] == ENGINE_PAYLOAD_KEY@
}

/// The form in which a payload is stored, or why it has none.
pub open spec fn stored_payload(payload: JsonView, encoding: CommitPayloadEncoding) -> Result<
    JsonView,
    EngineErrorView,
> {
    match encoding {
        CommitPayloadEncoding::NativeJson => if reserves(payload) {
            Ok(enveloped(EnginePayloadView::EscapedJson(payload)))
        } else {
            Ok(payload)
        },
        CommitPayloadEncoding::OpaqueBytes => match bytes_from(payload) {
            Some(bytes) => Ok(enveloped(EnginePayloadView::OpaqueBytes(bytes))),
            None => Err(
                EngineErrorView::Json(JsonFailureView::Reader(byte_array_refusal(payload))),
            ),
        },
    }
}

/// Where the key first stands among the keys of an object.
pub open spec fn key_position(keys: Seq<Seq<char>>, key: Seq<char>) -> Option<int>
    decreases keys.len(),
{
    if keys.len() == 0 {
        None
    } else if keys[0] == key {
        Some(0)
    } else {
        match key_position(keys.skip(1), key) {
            Some(position) => Some(position + 1),
            None => None,
        }
    }
}

/// The two fields of an envelope, from an object by name or from an array by place.
pub open spec fn envelope_fields(envelope: JsonView) -> Option<(JsonView, JsonView)> {
    match envelope {
        JsonView::Object(keys, values) => match (
            key_position(keys, "version"@),
            key_position(keys, "payload"@),
        ) {
            (Some(version), Some(payload)) => Some((values[version], values[payload])),
            _ => None,
        },
        JsonView::Array(items) => if items.len() == 2 {
            Some((items[0], items[1]))
        } else {
            None
        },
        _ => None,
    }
}

/// What the payload field of an envelope holds.
pub open spec fn envelope_content(payload: JsonView) -> Option<EnginePayloadView> {
    match payload {
        JsonView::Object(keys, values) => if keys.len() != 1 {
            None
        } else if keys[0] == "opaque_bytes"@ {
            match bytes_from(values[0]) {
                Some(bytes) => Some(EnginePayloadView::OpaqueBytes(bytes)),
                None => None,
            }
        } else if keys[0] == "escaped_json"@ {
            Some(EnginePayloadView::EscapedJson(values[0]))
        } else {
            None
        },
        _ => None,
    }
}

/// The version and the content of an envelope, if it is one.
pub open spec fn envelope_parsed(envelope: JsonView) -> Option<(u8, EnginePayloadView)> {
    match envelope_fields(envelope) {
        Some((version, payload)) => match envelope_content(payload) {
            Some(content) => if is_byte(version) {
                Some((version->Unsigned_0 as u8, content))
            } else {
                None
            },
            None => None,
        },
        None => None,
    }
}

/// The envelope in a stored payload, if there is one. An object whose only key is the
/// reserved one was written by the engine: if it is no envelope, or one of another
/// version, it is an error and never a domain payload; the error carries what stands in
/// the place of the envelope.
pub open spec fn envelope_of(payload: JsonView) -> Result<
    Option<EnginePayloadView>,
    EngineErrorView,
> {
    match payload {
        JsonView::Object(keys, values) => if keys.len() != 1 || keys[0] != ENGINE_PAYLOAD_KEY@ {
            Ok(None)
        } else {
            match envelope_parsed(values[0]) {
                None => Err(EngineErrorView::Json(JsonFailureView::Envelope(values[0]))),
                Some((version, content)) => if version != ENGINE_PAYLOAD_VERSION {
                    Err(EngineErrorView::UnsupportedPayloadVersion { version })
                } else {
                    Ok(Some(content))
                },
            }
        },
        _ => Ok(None),
    }
}

/// What a stored payload stands for.
pub open spec fn loaded_payload(payload: JsonView) -> Result<LoadedPayloadView, EngineErrorView> {
    match envelope_of(payload) {
        Err(error) => Err(error),
        Ok(None) => Ok(LoadedPayloadView::Json(payload)),
        Ok(Some(EnginePayloadView::OpaqueBytes(bytes))) => Ok(LoadedPayloadView::OpaqueBytes(bytes)),
        Ok(Some(EnginePayloadView::EscapedJson(value))) => Ok(LoadedPayloadView::Json(value)),
    }
}

/// The payload that a native reader gets: bytes stay in their envelope.
pub open spec fn native_payload(payload: JsonView) -> Result<JsonView, EngineErrorView> {
    match envelope_of(payload) {
        Err(error) => Err(error),
        Ok(Some(EnginePayloadView::EscapedJson(value))) => Ok(value),
        Ok(_) => Ok(payload),
    }
}

/// Reads the bytes of an array of numbers.
pub fn bytes_of_json(value: &Json) -> (bytes: Option<Vec<u8>>)
    ensures
        match bytes_from(value@) {
            Some(expected) => bytes matches Some(found) && found@ == expected,
            None => bytes is None,
        },
{
    let Json::Array(items) = value else {
        return None;
    };
    let mut bytes: Vec<u8> = Vec::new();
    let mut index: usize = 0;
    while index < items.len()
        invariant
            *value == Json::Array(*items),
            index <= items@.len(),
            bytes@.len() == index,
            forall|i: int|
                0 <= i < index ==> is_byte(#[trigger] value@->Array_0[i]) && bytes@[i]
                    == value@->Array_0[i]->Unsigned_0 as u8,
        decreases items.len() - index,
    {
        assert(value@->Array_0[index as int] == items@[index as int]@);
        match &items[index] {
            Json::Unsigned(number) => {
                if *number > 255 {
                    assert(!is_byte(value@->Array_0[index as int]));
                    return None;
                }
                bytes.push(*number as u8);
            },
            _ => {
                assert(!is_byte(value@->Array_0[index as int]));
                return None;
            },
        }
        index += 1;
    }
    assert(bytes@ =~= bytes_from(value@)->0);
    Some(bytes)
}

/// Whether an object holds the reserved key.
pub fn reserves_engine_payload(payload: &Json) -> (reserved: bool)
    ensures
        reserved == reserves(payload@),
{
    let Json::Object(entries) = payload else {
        return false;
    };
    let ghost keys = payload@->Object_0;
    let mut index: usize = 0;
    while index < entries.len()
        invariant
            *payload == Json::Object(*entries),
            keys == payload@->Object_0,
            index <= entries@.len(),
            forall|i: int| 0 <= i < index ==> #[trigger] keys[i] != ENGINE_PAYLOAD_KEY@,
        decreases entries.len() - index,
    {
        assert(keys[index as int] == entries@[index as int].0@);
        if same_text(entries[index].0.as_str(), ENGINE_PAYLOAD_KEY) {
            return true;
        }
        index += 1;
    }
    false
}

/// An object with one entry.
fn json_entry(key: &str, value: Json) -> (object: Json)
    ensures
        object@ == single_entry(key@, value@),
{
    let entries: Vec<(String, Json)> = vec![(key.to_owned(), value)];
    let object = Json::Object(entries);
    proof {
        assert(object@->Object_0 =~= seq![key@]);
        assert(object@->Object_1 =~= seq![value@]);
    }
    object
}

/// The array of numbers that stands for bytes.
fn json_bytes(bytes: &Vec<u8>) -> (array: Json)
    ensures
        array@ == byte_array(bytes@),
{
    let mut items: Vec<Json> = Vec::new();
    let mut index: usize = 0;
    while index < bytes.len()
        invariant
            index <= bytes@.len(),
            items@.len() == index,
            forall|i: int| 0 <= i < index ==> #[trigger] items@[i] == Json::Unsigned(bytes@[i] as u64),
        decreases bytes.len() - index,
    {
        items.push(Json::Unsigned(bytes[index] as u64));
        index += 1;
    }
    let array = Json::Array(items);
    proof {
        assert forall|i: int| 0 <= i < items@.len() implies array@->Array_0[i] == byte_array(
            bytes@,
        )->Array_0[i] by {
            assert(items@[i] == Json::Unsigned(bytes@[i] as u64));
            assert(items@[i]@ == JsonView::Unsigned(bytes@[i] as int));
        }
        assert(array@->Array_0 =~= byte_array(bytes@)->Array_0);
    }
    array
}

/// The envelope of a payload.
pub fn encode_engine_payload(payload: EnginePayload) -> (envelope: Json)
    ensures
        envelope@ == enveloped(payload@),
{
    let content = match payload {
        EnginePayload::OpaqueBytes(bytes) => json_entry("opaque_bytes", json_bytes(&bytes)),
        EnginePayload::EscapedJson(value) => json_entry("escaped_json", value),
    };
    let fields: Vec<(String, Json)> = vec![
        ("payload".to_owned(), content),
        ("version".to_owned(), Json::Unsigned(ENGINE_PAYLOAD_VERSION as u64)),
    ];
    let object = Json::Object(fields);
    proof {
        assert(object@->Object_0 =~= seq!["payload"@, "version"@]);
        assert(fields@[1].1@ == JsonView::Unsigned(ENGINE_PAYLOAD_VERSION as int));
        assert(object@->Object_1 =~= seq![
            content@,
            JsonView::Unsigned(ENGINE_PAYLOAD_VERSION as int),
        ]);
    }
    json_entry(ENGINE_PAYLOAD_KEY, object)
}

/// Where the key first stands among the entries of an object.
fn entry_position(entries: &Vec<(String, Json)>, key: &str) -> (position: Option<usize>)
    ensures
        match key_position(Json::Object(*entries)@->Object_0, key@) {
            Some(expected) => position matches Some(found) && found == expected && found
                < entries@.len(),
            None => position is None,
        },
{
    let ghost keys = Json::Object(*entries)@->Object_0;
    let mut index: usize = 0;
    assert(keys.skip(0) =~= keys);
    while index < entries.len()
        invariant
            keys == Json::Object(*entries)@->Object_0,
            index <= entries@.len(),
            key_position(keys, key@) == match key_position(keys.skip(index as int), key@) {
                Some(rest) => Some(rest + index),
                None => None,
            },
        decreases entries.len() - index,
    {
        proof {
            assert(keys[index as int] == entries@[index as int].0@);
            assert(keys.skip(index as int)[0] == keys[index as int]);
            assert(keys.skip(index as int).skip(1) =~= keys.skip(index + 1));
        }
        if same_text(entries[index].0.as_str(), key) {
            return Some(index);
        }
        index += 1;
    }
    None
}

/// The envelope in a stored payload, if there is one.
pub fn engine_envelope(payload: &Json) -> (result: Result<Option<EnginePayload>, EngineError>)
    ensures
        match envelope_of(payload@) {
            Ok(None) => result matches Ok(None),
            Ok(Some(content)) => result matches Ok(Some(found)) && found@ == content,
            Err(error) => result matches Err(found) && found@ == error,
        },
{
    let Json::Object(entries) = payload else {
        return Ok(None);
    };
    if entries.len() != 1 {
        return Ok(None);
    }
    assert(payload@->Object_0[0] == entries@[0].0@);
    if !same_text(entries[0].0.as_str(), ENGINE_PAYLOAD_KEY) {
        return Ok(None);
    }
    assert(payload@->Object_1[0] == entries@[0].1@);
    match parse_envelope(&entries[0].1) {
        None => Err(EngineError::Json(JsonFailure::Envelope(entries[0].1.duplicate()))),
        Some((version, content)) => {
            if version != ENGINE_PAYLOAD_VERSION {
                Err(EngineError::UnsupportedPayloadVersion { version })
            } else {
                Ok(Some(content))
            }
        },
    }
}

/// Reads the version and the content of an envelope.
pub fn parse_envelope(envelope: &Json) -> (parsed: Option<(u8, EnginePayload)>)
    ensures
        match envelope_parsed(envelope@) {
            Some((version, content)) => parsed matches Some(found) && found.0 == version && found.1@
                == content,
            None => parsed is None,
        },
{
    match envelope {
        Json::Object(entries) => {
            match (entry_position(entries, "version"), entry_position(entries, "payload")) {
                (Some(version), Some(payload)) => {
                    assert(envelope@->Object_1[version as int] == entries@[version as int].1@);
                    assert(envelope@->Object_1[payload as int] == entries@[payload as int].1@);
                    envelope_parts(&entries[version].1, &entries[payload].1)
                },
                _ => None,
            }
        },
        Json::Array(items) => {
            if items.len() != 2 {
                return None;
            }
            assert(envelope@->Array_0[0] == items@[0]@);
            assert(envelope@->Array_0[1] == items@[1]@);
            envelope_parts(&items[0], &items[1])
        },
        _ => None,
    }
}

/// Reads the two fields of an envelope.
fn envelope_parts(version: &Json, payload: &Json) -> (parsed: Option<(u8, EnginePayload)>)
    ensures
        match envelope_content(payload@) {
            Some(content) => if is_byte(version@) {
                parsed matches Some(found) && found.0 == version@->Unsigned_0 as u8 && found.1@
                    == content
            } else {
                parsed is None
            },
            None => parsed is None,
        },
{
    let Json::Object(entries) = payload else {
        return None;
    };
    if entries.len() != 1 {
        return None;
    }
    let ghost key = payload@->Object_0[0];
    assert(key == entries@[0].0@);
    assert(payload@->Object_1[0] == entries@[0].1@);
    let content = if same_text(entries[0].0.as_str(), "opaque_bytes") {
        match bytes_of_json(&entries[0].1) {
            Some(bytes) => EnginePayload::OpaqueBytes(bytes),
            None => return None,
        }
    } else if same_text(entries[0].0.as_str(), "escaped_json") {
        EnginePayload::EscapedJson(entries[0].1.duplicate())
    } else {
        return None;
    };
    match version {
        Json::Unsigned(number) => {
            if *number <= 255 {
                Some((*number as u8, content))
            } else {
                None
            }
        },
        _ => None,
    }
}

/// What a stored payload stands for.
pub fn decode_engine_payload(payload: Json) -> (result: Result<LoadedPayload, EngineError>)
    ensures
        match loaded_payload(payload@) {
            Ok(expected) => result matches Ok(found) && found@ == expected,
            Err(error) => result matches Err(found) && found@ == error,
        },
{
    match engine_envelope(&payload) {
        Err(error) => Err(error),
        Ok(None) => Ok(LoadedPayload::Json(payload)),
        Ok(Some(EnginePayload::OpaqueBytes(bytes))) => Ok(LoadedPayload::OpaqueBytes(bytes)),
        Ok(Some(EnginePayload::EscapedJson(value))) => Ok(LoadedPayload::Json(value)),
    }
}

/// A domain payload is read back as it was given; bytes are read back as bytes.
pub proof fn law_payloads_are_read_back(payload: JsonView, encoding: CommitPayloadEncoding)
    requires
        stored_payload(payload, encoding) is Ok,
    ensures
        ({
            let loaded = loaded_payload(stored_payload(payload, encoding)->Ok_0);
            match encoding {
                CommitPayloadEncoding::NativeJson => loaded == Ok::<_, EngineErrorView>(
                    LoadedPayloadView::Json(payload),
                ),
                CommitPayloadEncoding::OpaqueBytes => loaded == Ok::<_, EngineErrorView>(
                    LoadedPayloadView::OpaqueBytes(bytes_from(payload)->0),
                ),
            }
        }),
{
    if encoding is OpaqueBytes {
        lemma_envelopes_are_parsed(EnginePayloadView::OpaqueBytes(bytes_from(payload)->0));
    } else if reserves(payload) {
        lemma_envelopes_are_parsed(EnginePayloadView::EscapedJson(payload));
    } else if let JsonView::Object(keys, _) = payload {
        if keys.len() == 1 {
            assert(keys[0] != ENGINE_PAYLOAD_KEY@);
        }
    }
}

/// A native reader gets a domain payload back as it was given.
pub proof fn law_native_payloads_are_read_back(payload: JsonView)
    ensures
        native_payload(stored_payload(payload, CommitPayloadEncoding::NativeJson)->Ok_0) == Ok::<
            _,
            EngineErrorView,
        >(payload),
{
    law_payloads_are_read_back(payload, CommitPayloadEncoding::NativeJson);
}

/// An envelope that is written is read as what it holds.
proof fn lemma_envelopes_are_parsed(content: EnginePayloadView)
    ensures
        envelope_of(enveloped(content)) == Ok::<_, EngineErrorView>(Some(content)),
{
    let envelope = enveloped(content)->Object_1[0];
    let keys = seq!["payload"@, "version"@];
    reveal_strlit("payload");
    reveal_strlit("version");
    reveal_strlit("opaque_bytes");
    reveal_strlit("escaped_json");
    assert("payload"@ != "version"@) by {
        assert("payload"@[0] != "version"@[0]);
    }
    assert("opaque_bytes"@ != "escaped_json"@) by {
        assert("opaque_bytes"@[0] != "escaped_json"@[0]);
    }
    assert(envelope->Object_0 =~= keys);
    assert(keys.skip(1) =~= seq!["version"@]);
    reveal_with_fuel(key_position, 3);
    assert(key_position(keys, "payload"@) == Some(0int));
    assert(key_position(keys, "version"@) == Some(1int));
    if let EnginePayloadView::OpaqueBytes(bytes) = content {
        let items = byte_array(bytes)->Array_0;
        assert(bytes_from(byte_array(bytes))->0 =~= bytes);
    }
}

/// The envelope of bytes is stored without loss.
pub(crate) proof fn lemma_byte_envelopes_are_lossless(bytes: Seq<u8>)
    ensures
        lossless(enveloped(EnginePayloadView::OpaqueBytes(bytes)), MAX_JSON_DEPTH as nat),
{
    let keys = seq!["payload"@, "version"@];
    reveal_strlit("payload");
    reveal_strlit("version");
    assert(text_before("payload"@, "version"@)) by {
        assert("payload"@.take(0) == "version"@.take(0));
        assert(("payload"@[0] as int) < ("version"@[0] as int));
    }
    assert forall|i: int, j: int| 0 <= i < j < keys.len() implies #[trigger] text_before(
        keys[i],
        keys[j],
    ) by {
        assert(i == 0 && j == 1);
    }
    reveal_with_fuel(lossless, 6);
}

/// What the engine did not write is a domain payload, as it stands: whatever is no object,
/// and every object that has another key than the engine's own, or more than that one.
pub proof fn law_domain_payloads_stand_as_they_are(payload: JsonView)
    requires
        !(payload matches JsonView::Object(keys, _) && keys.len() == 1 && keys[0]
            == ENGINE_PAYLOAD_KEY@),
    ensures
        loaded_payload(payload) == Ok::<_, EngineErrorView>(LoadedPayloadView::Json(payload)),
        native_payload(payload) == Ok::<_, EngineErrorView>(payload),
{
}

/// A domain payload can always be stored: one without the engine's own key as it is, and one
/// with it, whatever else it holds, under that key alone. As bytes an array of numbers can be stored where each of them is a byte, and
/// nothing else can.
pub proof fn law_what_can_be_stored(payload: JsonView)
    ensures
        stored_payload(payload, CommitPayloadEncoding::NativeJson) is Ok,
        !(payload is Object) ==> stored_payload(payload, CommitPayloadEncoding::NativeJson)
            == Ok::<_, EngineErrorView>(payload),
        payload matches JsonView::Object(keys, _) ==> ((forall|i: int|
            0 <= i < keys.len() ==> #[trigger] keys[i] != ENGINE_PAYLOAD_KEY@) ==> stored_payload(
            payload,
            CommitPayloadEncoding::NativeJson,
        ) == Ok::<_, EngineErrorView>(payload)),
        payload matches JsonView::Object(keys, _) ==> ((exists|i: int|
            0 <= i < keys.len() && #[trigger] keys[i] == ENGINE_PAYLOAD_KEY@) ==> (stored_payload(
            payload,
            CommitPayloadEncoding::NativeJson,
        ) matches Ok(JsonView::Object(under, _)) && under.len() == 1 && under[0]
            == ENGINE_PAYLOAD_KEY@)),
        !(payload is Array) ==> stored_payload(payload, CommitPayloadEncoding::OpaqueBytes) is Err,
        payload matches JsonView::Array(items) ==> (stored_payload(
            payload,
            CommitPayloadEncoding::OpaqueBytes,
        ) is Ok <==> forall|i: int|
            0 <= i < items.len() ==> (#[trigger] items[i] matches JsonView::Unsigned(number) && 0
                <= number <= 255)),
{
    if let JsonView::Array(items) = payload {
        if forall|i: int|
            0 <= i < items.len() ==> (#[trigger] items[i] matches JsonView::Unsigned(number) && 0
                <= number <= 255) {
            assert forall|i: int| 0 <= i < items.len() implies is_byte(#[trigger] items[i]) by {}
        } else if bytes_from(payload) is Some {
            assert forall|i: int| 0 <= i < items.len() implies (
            #[trigger] items[i] matches JsonView::Unsigned(number) && 0 <= number <= 255) by {
                assert(is_byte(items[i]));
            }
        }
    }
}

/// An envelope is opened only where it is of the one version that is known; one of another
/// version is refused with that version, and never passes for a domain payload.
pub proof fn law_envelopes_of_other_versions_are_refused(
    version: u8,
    bytes: Seq<u8>,
    value: JsonView,
    escaped: bool,
)
    ensures
        ({
            let content = if escaped {
                JsonView::Object(seq!["escaped_json"@], seq![value])
            } else {
                JsonView::Object(seq!["opaque_bytes"@], seq![byte_array(bytes)])
            };
            let envelope = JsonView::Object(
                seq!["$event-sorcery-engine"@],
                seq![
                    JsonView::Object(
                        seq!["payload"@, "version"@],
                        seq![content, JsonView::Unsigned(version as int)],
                    ),
                ],
            );
            &&& version != 1 ==> loaded_payload(envelope) == Err::<LoadedPayloadView, _>(
                EngineErrorView::UnsupportedPayloadVersion { version },
            ) && native_payload(envelope) == Err::<JsonView, _>(
                EngineErrorView::UnsupportedPayloadVersion { version },
            )
            &&& version == 1 ==> loaded_payload(envelope) == Ok::<_, EngineErrorView>(
                if escaped {
                    LoadedPayloadView::Json(value)
                } else {
                    LoadedPayloadView::OpaqueBytes(bytes)
                },
            )
            &&& version == 1 ==> native_payload(envelope) == Ok::<_, EngineErrorView>(
                if escaped {
                    value
                } else {
                    envelope
                },
            )
        }),
{
    let held = if escaped {
        EnginePayloadView::EscapedJson(value)
    } else {
        EnginePayloadView::OpaqueBytes(bytes)
    };
    let content = if escaped {
        JsonView::Object(seq!["escaped_json"@], seq![value])
    } else {
        JsonView::Object(seq!["opaque_bytes"@], seq![byte_array(bytes)])
    };
    let inner = JsonView::Object(
        seq!["payload"@, "version"@],
        seq![content, JsonView::Unsigned(version as int)],
    );
    let known = enveloped(held);
    lemma_envelopes_are_parsed(held);
    let known_inner = known->Object_1[0];
    assert(envelope_parsed(known_inner) == Some((1u8, held)));
    assert(known_inner->Object_0 == seq!["payload"@, "version"@]);
    assert(envelope_content(content) == Some(held));
    reveal_strlit("payload");
    reveal_strlit("version");
    assert("payload"@[0] != "version"@[0]);
    let keys = seq!["payload"@, "version"@];
    assert(keys.skip(1)[0] == "version"@);
    reveal_with_fuel(key_position, 3);
    assert(key_position(keys, "version"@) == Some(1int));
    assert(key_position(keys, "payload"@) == Some(0int));
    assert(envelope_parsed(inner) == Some((version, held)));
}

/// Bytes are read from an array number by number, in their order.
pub proof fn law_bytes_are_read_number_by_number(value: Json, bytes: Option<Vec<u8>>)
    requires
        call_ensures(bytes_of_json, (&value,), bytes),
    ensures
        match bytes {
            Some(found) => value@ matches JsonView::Array(items) && found@.len() == items.len()
                && forall|i: int|
                0 <= i < items.len() ==> #[trigger] items[i] == JsonView::Unsigned(found@[i] as int),
            None => value@ matches JsonView::Array(items) ==> exists|i: int|
                0 <= i < items.len() && !(#[trigger] items[i] matches JsonView::Unsigned(number)
                    && 0 <= number <= 255),
        },
{
    if let JsonView::Array(items) = value@ {
        if bytes is Some {
            assert forall|i: int| 0 <= i < items.len() implies #[trigger] items[i]
                == JsonView::Unsigned(bytes->0@[i] as int) by {
                assert(is_byte(items[i]));
            }
        } else {
            let i = choose|i: int| 0 <= i < items.len() && !is_byte(#[trigger] items[i]);
            assert(!(items[i] matches JsonView::Unsigned(number) && 0 <= number <= 255));
        }
    }
}

/// An event belongs to the stream of its type and its name, and to no other.
pub proof fn law_events_belong_to_their_stream(
    stream: StreamIdentity,
    event: SerializedEvent,
    same: bool,
    own: StreamIdentity,
)
    requires
        call_ensures(StreamIdentity::matches, (&stream, &event), same),
        call_ensures(StreamIdentity::from_event, (&event,), own),
    ensures
        same <==> stream.aggregate_type@ == event.aggregate_type@ && stream.aggregate_id@
            == event.aggregate_id@,
        own.aggregate_type@ == event.aggregate_type@,
        own.aggregate_id@ == event.aggregate_id@,
{
}

/// Payloads are stored and read as said, whether one asks for an envelope, opens one, or
/// only wants to know whether one is needed.
pub proof fn law_payloads_are_opened_as_said(
    payload: Json,
    reserved: bool,
    held: EnginePayload,
    envelope: Json,
    opened: Result<Option<EnginePayload>, EngineError>,
    loaded: Result<LoadedPayload, EngineError>,
)
    requires
        call_ensures(reserves_engine_payload, (&payload,), reserved),
        call_ensures(encode_engine_payload, (held,), envelope),
        call_ensures(engine_envelope, (&envelope,), opened),
        call_ensures(decode_engine_payload, (envelope,), loaded),
    ensures
        reserved <==> (payload@ matches JsonView::Object(keys, _) && exists|i: int|
            0 <= i < keys.len() && #[trigger] keys[i] == ENGINE_PAYLOAD_KEY@),
        opened matches Ok(Some(found)) && found@ == held@,
        match (held, loaded) {
            (EnginePayload::OpaqueBytes(bytes), Ok(LoadedPayload::OpaqueBytes(found))) => found@
                == bytes@,
            (EnginePayload::EscapedJson(value), Ok(LoadedPayload::Json(found))) => found@ == value@,
            _ => false,
        },
{
    lemma_envelopes_are_parsed(held@);
}

} // verus!
