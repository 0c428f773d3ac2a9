//! What the C interface decides: which options open a store, what its errors look like,
//! and when a store may be used and closed.
//!
//! Pointers, locks and the store itself are the caller's.

use vstd::prelude::*;

use crate::cbor::{
    cbor_decoded_within, cbor_encoded, from_reader_within, into_writer, plain, CborValue, CborView,
    MAX_WRITTEN_DEPTH,
};
use crate::codec::same_bytes;
use crate::text::same_text;
use crate::time::{Delay, NANOS_PER_MILLI};

verus! {

pub const ABI_MAJOR: u32 = 0;

pub const ABI_MINOR: u32 = 1;

pub const ES_OK: i32 = 0;

pub const ES_ERR_DECODE: i32 = 1;

pub const ES_ERR_STORAGE: i32 = 4;

pub const ES_ERR_STATE: i32 = 5;

pub const ES_ERR_RESOURCE_LIMIT: i32 = 6;

pub const ES_ERR_PANIC: i32 = 100;

/// How long a request may be.
pub const MAX_REQUEST_BYTES: usize = 16_777_216;

/// How deep a request may nest.
pub const MAX_CBOR_DEPTH: usize = 32;

/// How many threads a store may run on.
pub const MAX_RUNTIME_THREADS: u32 = 256;

/// The version of the options and of the errors.
pub const PRODUCT_VERSION: u8 = 1;

/// The path of a database that lives in memory, for one connection.
pub const MEMORY_PATH: &'static str = "sqlite::memory:";

/// The version of the interface: the major number in the upper 16 bits, the minor
/// number in the lower ones.
pub fn es_abi_version() -> (version: u32)
    ensures
        version == ABI_MAJOR * 0x1_0000 + ABI_MINOR,
{
    ABI_MAJOR * 0x1_0000 + ABI_MINOR
}

/// Why a call failed.
#[derive(Clone, Copy, Debug, Eq, PartialEq)]
pub enum AbiError {
    MalformedInput,
    Storage,
    State(&'static str),
    ResourceLimit { resource: &'static str, observed: usize, limit: usize },
    Panic,
}

/// Why a call failed, over sequences.
pub enum AbiErrorView {
    MalformedInput,
    Storage,
    State(Seq<char>),
    ResourceLimit { resource: Seq<char>, observed: int, limit: int },
    Panic,
}

impl View for AbiError {
    type V = AbiErrorView;

    open spec fn view(&self) -> AbiErrorView {
        match self {
            AbiError::MalformedInput => AbiErrorView::MalformedInput,
            AbiError::Storage => AbiErrorView::Storage,
            AbiError::State(text) => AbiErrorView::State(text@),
            AbiError::ResourceLimit { resource, observed, limit } => AbiErrorView::ResourceLimit {
                resource: resource@,
                observed: *observed as int,
                limit: *limit as int,
            },
            AbiError::Panic => AbiErrorView::Panic,
        }
    }
}

/// The code of an error.
pub open spec fn error_code(error: AbiErrorView) -> i32 {
    match error {
        AbiErrorView::MalformedInput => ES_ERR_DECODE,
        AbiErrorView::Storage => ES_ERR_STORAGE,
        AbiErrorView::State(_) => ES_ERR_STATE,
        AbiErrorView::ResourceLimit { .. } => ES_ERR_RESOURCE_LIMIT,
        AbiErrorView::Panic => ES_ERR_PANIC,
    }
}

/// What an error says beside its code. Of a storage failure nothing is given away.
pub open spec fn error_detail(error: AbiErrorView) -> CborView {
    match error {
        AbiErrorView::MalformedInput => CborView::Text("malformed input"@),
        AbiErrorView::Storage => CborView::Text("storage failure"@),
        AbiErrorView::State(text) => CborView::Text(text),
        AbiErrorView::ResourceLimit { resource, observed, limit } => CborView::Array(
            seq![
                CborView::Text(resource),
                CborView::Integer(observed),
                CborView::Integer(limit),
            ],
        ),
        AbiErrorView::Panic => CborView::Null,
    }
}

/// An error as it is handed out: the version, the code and the detail.
pub open spec fn error_item(error: AbiErrorView) -> CborView {
    CborView::Array(
        seq![
            CborView::Integer(PRODUCT_VERSION as int),
            CborView::Integer(error_code(error) as int),
            error_detail(error),
        ],
    )
}

impl AbiError {
    pub fn code(&self) -> (code: i32)
        ensures
            code == error_code(self@),
    {
        match self {
            AbiError::MalformedInput => ES_ERR_DECODE,
            AbiError::Storage => ES_ERR_STORAGE,
            AbiError::State(_) => ES_ERR_STATE,
            AbiError::ResourceLimit { .. } => ES_ERR_RESOURCE_LIMIT,
            AbiError::Panic => ES_ERR_PANIC,
        }
    }
}

/// What an error says beside its code.
fn detail(error: AbiError) -> (item: CborValue)
    ensures
        item@ == error_detail(error@),
        plain(item@, (MAX_WRITTEN_DEPTH - 1) as nat),
{
    let item = match error {
        AbiError::MalformedInput => CborValue::Text("malformed input".to_owned()),
        AbiError::Storage => CborValue::Text("storage failure".to_owned()),
        AbiError::State(text) => CborValue::Text(text.to_owned()),
        AbiError::ResourceLimit { resource, observed, limit } => {
            let name = CborValue::Text(resource.to_owned());
            let seen = CborValue::Integer(observed as i128);
            let most = CborValue::Integer(limit as i128);
            assert(name@ == CborView::Text(resource@));
            assert(seen@ == CborView::Integer(observed as int));
            assert(most@ == CborView::Integer(limit as int));
            let item = CborValue::Array(vec![name, seen, most]);
            assert(item@->Array_0 =~= error_detail(error@)->Array_0);
            item
        },
        AbiError::Panic => CborValue::Null,
    };
    proof {
        reveal_with_fuel(plain, 3);
    }
    item
}

/// The code of an error, and the bytes that are handed out for it.
pub fn write_error(error: AbiError) -> (written: (i32, Option<Vec<u8>>))
    ensures
        written.0 == error_code(error@),
        written.1 matches Some(bytes) && bytes@ == cbor_encoded(error_item(error@)),
{
    let code: i32 = error.code();
    let version = CborValue::Integer(PRODUCT_VERSION as i128);
    let class = CborValue::Integer(code as i128);
    let text = detail(error);
    assert(version@ == CborView::Integer(PRODUCT_VERSION as int));
    assert(class@ == CborView::Integer(code as int));
    let item = CborValue::Array(vec![version, class, text]);
    proof {
        assert(item@->Array_0 =~= error_item(error@)->Array_0);
        assert(plain(item@, MAX_WRITTEN_DEPTH as nat)) by {
            reveal_with_fuel(plain, 2);
        }
    }
    match into_writer(&item) {
        Ok(bytes) => (code, Some(bytes)),
        Err(_) => (code, None),
    }
}

/// The options with which a store is opened.
#[derive(Debug, Eq, PartialEq)]
pub struct OpenOptions {
    pub path: String,
    pub busy_timeout: Delay,
    pub pool_size: u32,
    pub runtime_threads: usize,
}

/// The options as they are sent.
pub struct OpenFields {
    pub version: int,
    pub path: Seq<char>,
    pub busy_timeout_ms: int,
    pub pool_size: int,
    pub runtime_threads: int,
}

/// The item that carries the options.
pub open spec fn options_item(fields: OpenFields) -> CborView {
    CborView::Array(
        seq![
            CborView::Integer(fields.version),
            CborView::Text(fields.path),
            CborView::Integer(fields.busy_timeout_ms),
            CborView::Integer(fields.pool_size),
            CborView::Integer(fields.runtime_threads),
        ],
    )
}

/// The options that an item carries: five fields, each in its range.
pub open spec fn options_of(item: CborView) -> Option<OpenFields> {
    match item {
        CborView::Array(items) => if items.len() == 5 {
            match (items[0], items[1], items[2], items[3], items[4]) {
                (
                    CborView::Integer(version),
                    CborView::Text(path),
                    CborView::Integer(busy_timeout_ms),
                    CborView::Integer(pool_size),
                    CborView::Integer(runtime_threads),
                ) => if 0 <= version <= u8::MAX && 0 <= busy_timeout_ms <= u64::MAX && 0
                    <= pool_size <= u32::MAX && 0 <= runtime_threads <= u32::MAX {
                    Some(
                        OpenFields {
                            version,
                            path,
                            busy_timeout_ms,
                            pool_size,
                            runtime_threads,
                        },
                    )
                } else {
                    None
                },
                _ => None,
            }
        } else {
            None
        },
        _ => None,
    }
}

/// Whether the options are of this version, name at least one connection and one
/// thread, and share no database in memory between connections.
pub open spec fn acceptable(fields: OpenFields) -> bool {
    &&& fields.version == PRODUCT_VERSION
    &&& fields.pool_size != 0
    &&& fields.runtime_threads != 0
    &&& fields.path == MEMORY_PATH@ ==> fields.pool_size == 1
}

/// The fields of the options that open a store, or why they do not.
pub open spec fn checked_options(fields: OpenFields) -> Result<OpenFields, AbiErrorView> {
    if !acceptable(fields) {
        Err(AbiErrorView::MalformedInput)
    } else if fields.runtime_threads > MAX_RUNTIME_THREADS {
        Err(
            AbiErrorView::ResourceLimit {
                resource: "runtime_threads"@,
                observed: fields.runtime_threads,
                limit: MAX_RUNTIME_THREADS as int,
            },
        )
    } else {
        Ok(fields)
    }
}

/// The options that the bytes carry, or why they carry none. A request that is not
/// there, cannot be read or is not in canonical form is malformed.
pub open spec fn requested_options(request: Option<Seq<u8>>) -> Result<OpenFields, AbiErrorView> {
    match request {
        None => Err(AbiErrorView::MalformedInput),
        Some(bytes) => if bytes.len() > MAX_REQUEST_BYTES {
            Err(
                AbiErrorView::ResourceLimit {
                    resource: "encoded_request_buffer"@,
                    observed: bytes.len() as int,
                    limit: MAX_REQUEST_BYTES as int,
                },
            )
        } else {
            match cbor_decoded_within(bytes, MAX_CBOR_DEPTH as nat) {
                None => Err(AbiErrorView::MalformedInput),
                Some(item) => match options_of(item) {
                    None => Err(AbiErrorView::MalformedInput),
                    Some(fields) => if cbor_encoded(options_item(fields)) != bytes {
                        Err(AbiErrorView::MalformedInput)
                    } else {
                        checked_options(fields)
                    },
                },
            }
        },
    }
}

/// Whether `result` is the options, or the error, of `expected`.
pub open spec fn options_answer(
    expected: Result<OpenFields, AbiErrorView>,
    result: Result<OpenOptions, AbiError>,
) -> bool {
    match (expected, result) {
        (Ok(fields), Ok(options)) => {
            &&& options.path@ == fields.path
            &&& options.busy_timeout.total_nanos() == fields.busy_timeout_ms * NANOS_PER_MILLI
            &&& options.busy_timeout.nanos < 1_000_000_000
            &&& options.pool_size == fields.pool_size
            &&& options.runtime_threads == fields.runtime_threads
        },
        (Err(expected), Err(error)) => error@ == expected,
        _ => false,
    }
}

/// The options as they were read.
struct RawOptions {
    version: u8,
    path: String,
    busy_timeout_ms: u64,
    pool_size: u32,
    runtime_threads: u32,
}

impl RawOptions {
    spec fn fields(self) -> OpenFields {
        OpenFields {
            version: self.version as int,
            path: self.path@,
            busy_timeout_ms: self.busy_timeout_ms as int,
            pool_size: self.pool_size as int,
            runtime_threads: self.runtime_threads as int,
        }
    }
}

/// The options that an item carries.
fn parse_options(item: &CborValue) -> (options: Option<RawOptions>)
    ensures
        match options {
            Some(raw) => options_of(item@) == Some(raw.fields()),
            None => options_of(item@) is None,
        },
{
    let CborValue::Array(items) = item else {
        return None;
    };
    if items.len() != 5 {
        return None;
    }
    assert(item@->Array_0.len() == 5);
    assert(item@->Array_0[0] == items@[0]@ && item@->Array_0[1] == items@[1]@ && item@->Array_0[2]
        == items@[2]@ && item@->Array_0[3] == items@[3]@ && item@->Array_0[4] == items@[4]@);
    match (&items[0], &items[1], &items[2], &items[3], &items[4]) {
        (
            CborValue::Integer(version),
            CborValue::Text(path),
            CborValue::Integer(busy_timeout_ms),
            CborValue::Integer(pool_size),
            CborValue::Integer(runtime_threads),
        ) => {
            let in_range = 0 <= *version && *version <= u8::MAX as i128 && 0 <= *busy_timeout_ms
                && *busy_timeout_ms <= u64::MAX as i128 && 0 <= *pool_size && *pool_size
                <= u32::MAX as i128 && 0 <= *runtime_threads && *runtime_threads
                <= u32::MAX as i128;
            if !in_range {
                return None;
            }
            Some(
                RawOptions {
                    version: *version as u8,
                    path: path.clone(),
                    busy_timeout_ms: *busy_timeout_ms as u64,
                    pool_size: *pool_size as u32,
                    runtime_threads: *runtime_threads as u32,
                },
            )
        },
        _ => None,
    }
}

/// The canonical bytes of the options.
fn canonical_options(raw: &RawOptions) -> (bytes: Option<Vec<u8>>)
    ensures
        bytes matches Some(canonical) && canonical@ == cbor_encoded(options_item(raw.fields())),
{
    let version = CborValue::Integer(raw.version as i128);
    let path = CborValue::Text(raw.path.clone());
    let busy_timeout_ms = CborValue::Integer(raw.busy_timeout_ms as i128);
    let pool_size = CborValue::Integer(raw.pool_size as i128);
    let runtime_threads = CborValue::Integer(raw.runtime_threads as i128);
    assert(version@ == CborView::Integer(raw.version as int));
    assert(path@ == CborView::Text(raw.path@));
    assert(busy_timeout_ms@ == CborView::Integer(raw.busy_timeout_ms as int));
    assert(pool_size@ == CborView::Integer(raw.pool_size as int));
    assert(runtime_threads@ == CborView::Integer(raw.runtime_threads as int));
    let item = CborValue::Array(vec![version, path, busy_timeout_ms, pool_size, runtime_threads]);
    proof {
        assert(item@->Array_0 =~= options_item(raw.fields())->Array_0);
        assert(plain(item@, MAX_WRITTEN_DEPTH as nat)) by {
            reveal_with_fuel(plain, 2);
        }
    }
    match into_writer(&item) {
        Ok(bytes) => Some(bytes),
        Err(_) => None,
    }
}

/// The options that open a store, or why they do not.
fn check_options(raw: RawOptions) -> (result: Result<OpenOptions, AbiError>)
    ensures
        options_answer(checked_options(raw.fields()), result),
{
    if raw.version != PRODUCT_VERSION || raw.pool_size == 0 || raw.runtime_threads == 0 || (
    same_text(raw.path.as_str(), MEMORY_PATH) && raw.pool_size != 1) {
        return Err(AbiError::MalformedInput);
    }
    if raw.runtime_threads > MAX_RUNTIME_THREADS {
        return Err(
            AbiError::ResourceLimit {
                resource: "runtime_threads",
                observed: raw.runtime_threads as usize,
                limit: MAX_RUNTIME_THREADS as usize,
            },
        );
    }
    Ok(
        OpenOptions {
            path: raw.path,
            busy_timeout: Delay::from_millis(raw.busy_timeout_ms),
            pool_size: raw.pool_size,
            runtime_threads: raw.runtime_threads as usize,
        },
    )
}

/// The bytes of a request, if there are any.
pub open spec fn request_bytes(request: Option<&[u8]>) -> Option<Seq<u8>> {
    match request {
        Some(bytes) => Some(bytes@),
        None => None,
    }
}

/// Whether a request of so many bytes is looked at.
pub fn check_request_length(length: usize) -> (result: Result<(), AbiError>)
    ensures
        if length <= MAX_REQUEST_BYTES {
            result is Ok
        } else {
            result matches Err(error) && error@ == (AbiErrorView::ResourceLimit {
                resource: "encoded_request_buffer"@,
                observed: length as int,
                limit: MAX_REQUEST_BYTES as int,
            })
        },
{
    if length > MAX_REQUEST_BYTES {
        return Err(
            AbiError::ResourceLimit {
                resource: "encoded_request_buffer",
                observed: length,
                limit: MAX_REQUEST_BYTES,
            },
        );
    }
    Ok(())
}

/// Reads the options with which a store is to be opened. `None` is a request that was
/// not handed over.
pub fn decode_open_options(request: Option<&[u8]>) -> (result: Result<OpenOptions, AbiError>)
    ensures
        options_answer(requested_options(request_bytes(request)), result),
{
    let Some(bytes) = request else {
        return Err(AbiError::MalformedInput);
    };
    match check_request_length(bytes.len()) {
        Ok(()) => {},
        Err(error) => return Err(error),
    }
    let Some(item) = from_reader_within(bytes, MAX_CBOR_DEPTH) else {
        return Err(AbiError::MalformedInput);
    };
    let Some(raw) = parse_options(&item) else {
        return Err(AbiError::MalformedInput);
    };
    let Some(canonical) = canonical_options(&raw) else {
        return Err(AbiError::MalformedInput);
    };
    if !same_bytes(canonical.as_slice(), bytes) {
        return Err(AbiError::MalformedInput);
    }
    check_options(raw)
}

/// Requests that are accepted with the same options are the same bytes.
pub proof fn law_accepted_requests_are_canonical(request: Seq<u8>, other: Seq<u8>)
    requires
        requested_options(Some(request)) is Ok,
        requested_options(Some(request)) == requested_options(Some(other)),
    ensures
        request == other,
{
}

/// Options that open a store can be served: they are of this version, they name at
/// least one connection and between one and the greatest number of threads, and a
/// database in memory has one connection.
pub proof fn law_accepted_options_can_be_served(request: Option<Seq<u8>>)
    requires
        requested_options(request) is Ok,
    ensures
        ({
            let fields = requested_options(request)->Ok_0;
            &&& fields.version == PRODUCT_VERSION
            &&& 0 < fields.pool_size <= u32::MAX
            &&& 0 < fields.runtime_threads <= MAX_RUNTIME_THREADS
            &&& fields.path == MEMORY_PATH@ ==> fields.pool_size == 1
            &&& request->Some_0.len() <= MAX_REQUEST_BYTES
        }),
{
}

/// Every kind of error has a code of its own, none of which is that of success.
pub proof fn law_error_codes_tell_errors_apart(
    error: AbiError,
    other: AbiError,
    code: i32,
    other_code: i32,
)
    requires
        call_ensures(AbiError::code, (&error,), code),
        call_ensures(AbiError::code, (&other,), other_code),
    ensures
        code > 0,
        code == other_code <==> {
            ||| error is MalformedInput && other is MalformedInput
            ||| error is Storage && other is Storage
            ||| error is State && other is State
            ||| error is ResourceLimit && other is ResourceLimit
            ||| error is Panic && other is Panic
        },
        error is MalformedInput ==> code == 1,
        error is Storage ==> code == 4,
        error is State ==> code == 5,
        error is ResourceLimit ==> code == 6,
        error is Panic ==> code == 100,
{
}

/// An error is written with its version, its code and what it says: the text of a state
/// error, what was observed of a resource and its limit, nothing of a panic, and nothing
/// that a storage failure could give away.
pub proof fn law_errors_say_what_they_may(error: AbiErrorView)
    ensures
        match error_item(error) {
            CborView::Array(fields) => {
                &&& fields.len() == 3
                &&& fields[0] == CborView::Integer(1)
                &&& fields[1] == CborView::Integer(error_code(error) as int)
                &&& match (error, fields[2]) {
                    (AbiErrorView::State(text), CborView::Text(said)) => said == text,
                    (
                        AbiErrorView::ResourceLimit { resource, observed, limit },
                        CborView::Array(parts),
                    ) => parts.len() == 3 && parts[0] == CborView::Text(resource) && parts[1]
                        == CborView::Integer(observed) && parts[2] == CborView::Integer(limit),
                    (AbiErrorView::Panic, said) => said is Null,
                    (AbiErrorView::Storage, said) => said == CborView::Text("storage failure"@),
                    (AbiErrorView::MalformedInput, said) => said == CborView::Text(
                        "malformed input"@,
                    ),
                    _ => false,
                }
            },
            _ => false,
        },
{
}

/// Options that can be served are accepted as they were sent, and no others: those of
/// another version, without a connection or a thread, or with a database in memory that
/// several connections would share are malformed; too many threads are told with the
/// limit.
pub proof fn law_options_are_accepted_as_sent(fields: OpenFields)
    ensures
        match checked_options(fields) {
            Ok(accepted) => {
                &&& accepted == fields
                &&& fields.version == 1
                &&& fields.pool_size != 0
                &&& fields.runtime_threads != 0
                &&& fields.runtime_threads <= 256
                &&& fields.path == "sqlite::memory:"@ ==> fields.pool_size == 1
            },
            Err(AbiErrorView::ResourceLimit { observed, limit, .. }) => {
                &&& fields.runtime_threads > 256
                &&& observed == fields.runtime_threads
                &&& limit == 256
            },
            Err(error) => {
                &&& error is MalformedInput
                &&& fields.version != 1 || fields.pool_size == 0 || fields.runtime_threads == 0 || (
                fields.path == "sqlite::memory:"@ && fields.pool_size != 1)
            },
        },
{
}

/// What is read from the item of some options are those options, each field in its place;
/// an item of any other shape carries none.
pub proof fn law_options_are_read_from_their_item(fields: OpenFields, item: CborView)
    ensures
        options_of(options_item(fields)) == if 0 <= fields.version <= u8::MAX && 0
            <= fields.busy_timeout_ms <= u64::MAX && 0 <= fields.pool_size <= u32::MAX && 0
            <= fields.runtime_threads <= u32::MAX {
            Some(fields)
        } else {
            None
        },
        options_of(item) matches Some(found) ==> item == options_item(found),
{
    if let Some(found) = options_of(item) {
        assert(item->Array_0 =~= options_item(found)->Array_0);
    }
}

/// The options that open a store are the ones that were sent: its path, its timeout to the
/// millisecond, its connections and its threads.
pub proof fn law_stores_are_opened_with_what_was_sent(
    request: Option<&[u8]>,
    result: Result<OpenOptions, AbiError>,
)
    requires
        call_ensures(decode_open_options, (request,), result),
    ensures
        request is None ==> (result matches Err(error) && error is MalformedInput),
        request matches Some(bytes) && bytes@.len() > 16_777_216 ==> (result matches Err(error)
            && error is ResourceLimit),
        result matches Ok(options) ==> (cbor_decoded_within(
            request->0@,
            32,
        ) matches Some(CborView::Array(sent)) && sent.len() == 5 && sent[0] == CborView::Integer(1)
            && sent[1] == CborView::Text(options.path@) && (
        sent[2] matches CborView::Integer(timeout) && options.busy_timeout.secs * 1000
            + options.busy_timeout.nanos / 1_000_000 == timeout) && sent[3] == CborView::Integer(
            options.pool_size as int,
        ) && sent[4] == CborView::Integer(options.runtime_threads as int)),
{
}

/// A request is looked at exactly where it is not longer than sixteen mebibytes.
pub proof fn law_long_requests_are_refused(length: usize, result: Result<(), AbiError>)
    requires
        call_ensures(check_request_length, (length,), result),
    ensures
        match result {
            Ok(()) => length <= 16 * 1024 * 1024,
            Err(AbiError::ResourceLimit { observed, limit, .. }) => length > 16 * 1024 * 1024
                && observed == length && limit == 16 * 1024 * 1024,
            Err(_) => false,
        },
{
}

/// The version of the interface holds its two numbers apart: the major one above sixteen
/// bits for the minor one.
pub proof fn law_versions_hold_two_numbers(version: u32)
    requires
        call_ensures(es_abi_version, (), version),
    ensures
        version / 65536 == 0,
        version % 65536 == 1,
{
}

} // verus!
