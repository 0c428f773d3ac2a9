//! The C interface: options, errors and the life of a store.

use ciborium::Value;
use event_sorcery::abi::{
    decode_open_options, es_abi_version, write_error, AbiError, ES_ERR_DECODE, ES_ERR_PANIC,
    ES_ERR_RESOURCE_LIMIT, ES_ERR_STATE, ES_ERR_STORAGE, MAX_REQUEST_BYTES, MAX_RUNTIME_THREADS,
};
use event_sorcery::store_handle::{
    after_call, close_code, may_call, CallOutcome, CloseRole, Released, StoreRegistry, StoreState,
};
use event_sorcery::time::Delay;

fn encoded(options: &(u8, &str, u64, u32, u32)) -> Vec<u8> {
    let mut encoded = Vec::new();
    ciborium::into_writer(options, &mut encoded).unwrap();
    encoded
}

fn encoded_open_options(runtime_threads: u32) -> Vec<u8> {
    encoded(&(1_u8, "sqlite::memory:", 5_000_u64, 1_u32, runtime_threads))
}

fn open_options() -> Vec<u8> {
    encoded_open_options(1)
}

fn decode_error(bytes: Option<Vec<u8>>) -> (u8, i32, Value) {
    ciborium::from_reader(bytes.unwrap().as_slice()).unwrap()
}

#[test]
fn open_options_accept_the_maximum_runtime_thread_count() {
    let encoded = encoded_open_options(MAX_RUNTIME_THREADS);

    let Ok(options) = decode_open_options(Some(&encoded)) else {
        panic!("maximum runtime thread count must be accepted");
    };

    assert_eq!(
        options.runtime_threads,
        usize::try_from(MAX_RUNTIME_THREADS).unwrap()
    );
    assert_eq!(options.path, "sqlite::memory:");
    assert_eq!(options.busy_timeout, Delay { secs: 5, nanos: 0 });
    assert_eq!(options.pool_size, 1);
}

#[test]
fn open_options_reject_the_first_runtime_thread_count_above_the_limit() {
    let encoded = encoded_open_options(MAX_RUNTIME_THREADS + 1);

    let result = decode_open_options(Some(&encoded));

    assert!(matches!(
        result,
        Err(AbiError::ResourceLimit {
            resource: "runtime_threads",
            observed,
            limit,
        }) if observed == usize::try_from(MAX_RUNTIME_THREADS + 1).unwrap()
            && limit == usize::try_from(MAX_RUNTIME_THREADS).unwrap()
    ));
}

#[test]
fn oversized_open_request_reports_the_resource_limit() {
    let oversized = vec![0_u8; MAX_REQUEST_BYTES + 1];

    let Err(error) = decode_open_options(Some(&oversized)) else {
        panic!("an oversized request must be refused");
    };
    let (result, bytes) = write_error(error);
    let error_value = decode_error(bytes);

    assert_eq!(result, ES_ERR_RESOURCE_LIMIT);
    assert_eq!(
        error_value,
        (
            1,
            ES_ERR_RESOURCE_LIMIT,
            Value::Array(vec![
                Value::Text("encoded_request_buffer".to_string()),
                Value::Integer(oversized.len().into()),
                Value::Integer(MAX_REQUEST_BYTES.into()),
            ]),
        )
    );
}

#[test]
fn open_rejects_an_indefinite_length_cbor_product() {
    let mut encoded = open_options();
    assert_eq!(encoded[0], 0x85);
    encoded[0] = 0x9f;
    encoded.push(0xff);

    let Err(error) = decode_open_options(Some(&encoded)) else {
        panic!("an indefinite product must be refused");
    };

    assert_eq!(error.code(), ES_ERR_DECODE);
}

#[test]
fn storage_errors_use_the_stable_code_and_redacted_detail() {
    let (result, bytes) = write_error(AbiError::Storage);
    let error_value = decode_error(bytes);

    assert_eq!(result, ES_ERR_STORAGE);
    assert_eq!(
        error_value,
        (
            1,
            ES_ERR_STORAGE,
            Value::Text("storage failure".to_string())
        )
    );
}

#[test]
fn panic_errors_have_a_null_detail() {
    let (result, bytes) = write_error(AbiError::Panic);
    let error_value = decode_error(bytes);

    assert_eq!(result, ES_ERR_PANIC);
    assert_eq!(error_value, (1, ES_ERR_PANIC, Value::Null));
}

#[test]
fn state_and_decode_errors_say_why() {
    assert_eq!(
        decode_error(write_error(AbiError::State("test failure")).1),
        (1, ES_ERR_STATE, Value::Text("test failure".to_string()))
    );
    assert_eq!(
        decode_error(write_error(AbiError::MalformedInput).1),
        (1, ES_ERR_DECODE, Value::Text("malformed input".to_string()))
    );
}

#[test]
fn malformed_options_are_refused() {
    let malformed = |bytes: &[u8]| decode_open_options(Some(bytes)) == Err(AbiError::MalformedInput);

    assert_eq!(decode_open_options(None), Err(AbiError::MalformedInput));
    assert!(malformed(&[]));
    assert!(malformed(&[0xff]));
    assert!(malformed(&encoded(&(2, "a", 0, 1, 1))));
    assert!(malformed(&encoded(&(1, "a", 0, 0, 1))));
    assert!(malformed(&encoded(&(1, "a", 0, 1, 0))));
    assert!(malformed(&encoded(&(1, "sqlite::memory:", 0, 2, 1))));
    assert!(decode_open_options(Some(&encoded(&(1, "a", 0, 2, 1)))).is_ok());

    let mut trailing = open_options();
    trailing.push(0);
    assert!(malformed(&trailing));
    let mut four_fields = Vec::new();
    ciborium::into_writer(&(1_u8, "a", 0_u64, 1_u32), &mut four_fields).unwrap();
    assert!(malformed(&four_fields));
    let mut wide_version = Vec::new();
    ciborium::into_writer(&(256_u32, "a", 0_u64, 1_u32, 1_u32), &mut wide_version).unwrap();
    assert!(malformed(&wide_version));
}

#[test]
fn the_version_holds_both_numbers() {
    assert_eq!(es_abi_version(), 1);
}

#[test]
fn one_close_destroys_and_the_others_join() {
    let mut state = StoreState::opened();

    assert_eq!(state.begin_close(), CloseRole::Destroy);
    assert_eq!(state.begin_close(), CloseRole::Join);
    assert_eq!(state.closed(), None);
    state.finish_close(Ok(()));
    assert_eq!(state.closed(), Some(Ok(())));
    assert_eq!(state.begin_close(), CloseRole::Join);
}

#[test]
fn a_close_waits_for_the_calls_that_run() {
    let mut state = StoreState::opened();
    assert_eq!(state.acquire(true), Ok(()));

    assert_eq!(state.begin_close(), CloseRole::Destroy);
    assert!(state.is_busy());
    assert_eq!(
        state.acquire(true),
        Err(AbiError::State("store is closing"))
    );
    assert_eq!(
        state.release(),
        Released {
            wakes: true,
            poisons: false
        }
    );
    assert!(!state.is_busy());
    assert!(state.release().poisons);
}

#[test]
fn close_calls_clear_the_cell_and_find_their_store_until_it_is_forgotten() {
    let mut registry = StoreRegistry::new();
    registry.publish(10, 77).unwrap();

    let first = registry.start_close(Some(10), Some(77));
    assert_eq!((first.store, first.held), (Ok(Some(77)), None));
    let second = registry.start_close(Some(10), None);
    assert_eq!((second.store, second.held), (Ok(Some(77)), None));
    let foreign = registry.start_close(Some(10), Some(78));
    assert_eq!(
        (foreign.store, foreign.held),
        (
            Err(AbiError::State("store owner does not match its handle")),
            Some(78)
        )
    );
    assert!(registry.retire(10, 77));
    let third = registry.start_close(Some(10), None);
    assert_eq!((third.store, third.held), (Ok(None), None));
    assert_eq!(registry.start_close(None, None).store, Ok(None));

    assert_eq!(close_code(Ok(())), 0);
    assert_eq!(close_code(Err(AbiError::Panic)), AbiError::Panic.code());
}

#[test]
fn every_close_gives_the_result_of_the_one_that_destroyed() {
    let mut state = StoreState::opened();
    assert_eq!(state.acquire(true), Ok(()));
    assert_eq!(state.acquire(true), Ok(()));
    assert_eq!(state.begin_close(), CloseRole::Destroy);
    assert_eq!(state.begin_close(), CloseRole::Join);

    assert!(!state.release().wakes);
    assert!(state.is_busy());
    assert!(state.release().wakes);
    assert!(!state.is_busy());
    assert_eq!(state, StoreState::Closing { active_calls: 0 });
    state.finish_close(Err(AbiError::Panic));

    assert_eq!(state.begin_close(), CloseRole::Join);
    assert_eq!(state.closed(), Some(Err(AbiError::Panic)));
    assert!(state.acquire(true).is_err());
    assert_eq!(state.closed(), Some(Err(AbiError::Panic)));
}

#[test]
fn calls_are_refused_on_stores_that_cannot_take_them() {
    let mut full = StoreState::Open {
        active_calls: usize::MAX,
    };

    assert_eq!(
        full.acquire(true),
        Err(AbiError::State("active call count overflow"))
    );
    assert_eq!(
        StoreState::opened().acquire(false),
        Err(AbiError::State("store is closed"))
    );
    assert_eq!(may_call(true), Err(AbiError::State("store is poisoned")));
    assert_eq!(may_call(false), Ok(()));
    assert_eq!(
        after_call(CallOutcome::Panicked),
        (Err(AbiError::Panic), true)
    );
    assert_eq!(
        after_call(CallOutcome::Returned(Err(AbiError::Storage))),
        (Err(AbiError::Storage), false)
    );
}

#[test]
fn owners_keep_one_store_until_it_is_retired() {
    let mut registry = StoreRegistry::new();

    assert_eq!(registry.publish(10, 77), Ok(()));
    assert_eq!(
        registry.publish(10, 78),
        Err(AbiError::State("store owner is already open"))
    );
    assert_eq!(registry.to_close(10, Some(77)), Ok(Some(77)));
    assert_eq!(registry.to_close(10, None), Ok(Some(77)));
    assert_eq!(
        registry.to_close(10, Some(78)),
        Err(AbiError::State("store owner does not match its handle"))
    );
    assert_eq!(registry.to_acquire(Some(10), Some(77)), Ok(77));
    assert_eq!(
        registry.to_acquire(Some(10), None),
        Err(AbiError::State("store is closed"))
    );
    assert_eq!(
        registry.to_acquire(None, None),
        Err(AbiError::State("store owner is null"))
    );
    assert!(!registry.retire(10, 78));
    assert!(registry.retire(10, 77));
    assert_eq!(registry.to_close(10, None), Ok(None));
    assert_eq!(
        registry.to_acquire(Some(10), Some(77)),
        Err(AbiError::State("store is closed"))
    );
}
