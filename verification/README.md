# terachat-core

The verified core of the TeraChat messaging platform, written in Verus.

- `src/crypto`: opaque key handles, key material with explicit zeroization,
  the key arena (store, remove, emergency wipe) with its laws, the FFI error
  codes and boundary decision, and the FFI raw-pointer lint on source text.
- `src/crdt`: DAG nodes with a BLAKE3 content hash and UUID v7 identifiers.
- `src/mesh`: mesh priorities, backpressure configuration and peers.
- `src/store`, `src/tapp`: storage errors, ABI schema versions and version
  negotiation.
- `app/`: the process-wide arena behind a lock, the `ffi_boundary!` macro and
  panic hook, file walking for the lint, and serde/thiserror forms of the
  library's types.
- `tests/`: tests run against the compiled library.
