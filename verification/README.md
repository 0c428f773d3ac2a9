# event-sorcery

Event sourcing with durable jobs, over SQLite.

`src/` holds the decisions, proved with Verus:

- `kernel`, `model`, `codec`, `cbor`: the lease kernel of jobs and its canonical bytes.
- `entity`, `lifecycle`, `dispatch`, `operation`, `fx_marker`: entities, their lives, and
  the jobs that they dispatch.
- `job`, `job_store`, `job_backend`, `lease`, `predicate`, `identity`: claims, leases,
  acknowledgements, polls, and the identities of jobs.
- `engine`, `commit`, `storage`, `stream`, `json`: payloads, commit scripts, rows, and
  what a commit makes of the streams and the queue.
- `projection`, `reactor`, `schema_registry`, `wire`, `testing`: views, retries, schema
  versions, startup, test harnesses.
- `abi`, `store_handle`, `time`, `text`: the C interface's requests and handles, instants,
  texts.

What no proof reaches is stated by the contracts of a few functions that call `ciborium`,
`serde_json`, `chrono`, `ulid` and the standard library; each says in its comment what is taken for granted.

`app/` is the ordinary code around it: SQL, the aggregate framework, workers, C.
`tests/` runs the library on concrete values.
