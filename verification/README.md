# dash

The verified core of the dash data platform, written in Verus.

- `src/` is the library. Verus proves every function in it against its
  contract; the flags of a running function, shared atomics that any
  thread may set, are the one part whose values no contract states. It
  covers the framing of pipe messages, the storage model and its
  endpoints, the state machines and rules of the operator, the plans of the
  storage provider (tenants, buckets, jobs, replication), the columns
  derived from JSON and Arrow schemas, and the routes of the object-storage
  sidecar. Calls into outside crates (URL, byte-size and resolver parsing,
  hashing, key derivation, random values, signal handling, UTF-8 decoding)
  stand behind small trusted wrappers whose contracts say what those crates
  promise.
- `tests/` runs the library on concrete values.
- `app/` is the thin layer around it: files, the clock, signals, floating
  point and serialization.
