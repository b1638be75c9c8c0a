# ayr

Building blocks of a small engine, each with a contract that its code
meets.

- `reflect`: descriptors of Rust types (`Type` and the descriptor types it
  is built from), item paths, type ids, how each descriptor is written out,
  and `TypeOf` / `ToType` for the standard types.
- `state`: a store that owns a state and changes it only by applying the
  actions dispatched to it, oldest first, on `flush`.
- `world`, `entity`, `table`: entities kept under sequential ids, and rows
  with versions and timestamps.
- `diagnostic`, `ids`, `view`: diagnostics with nested children, the id
  types, and node styles.
- `text`: the character-sequence specifications the renderers share.

`app/` holds what stays outside the verified library: the serde forms of
the library's values, the dynamically typed `Value` (it holds floats), the
per-tick `Context` and the hook traits.
