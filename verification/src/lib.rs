//! Event sourcing with durable jobs: verified decision logic.

pub mod abi;
pub mod cbor;
pub mod codec;
pub mod commit;
pub mod dispatch;
pub mod engine;
pub mod entity;
pub mod fx_marker;
pub mod identity;
pub mod job;
pub mod job_backend;
pub mod job_store;
pub mod json;
pub mod kernel;
pub mod lease;
pub mod lifecycle;
pub mod model;
pub mod operation;
pub mod predicate;
pub mod projection;
pub mod reactor;
pub mod schema_registry;
pub mod storage;
pub mod store_handle;
pub mod stream;
pub mod testing;
pub mod text;
pub mod time;
pub mod wire;
