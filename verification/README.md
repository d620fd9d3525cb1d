# lbug partition routing

A Verus library for the distributed side of partitioned tables: it decides what the engine's
partition-routing hooks are answered, keeps at most one set of hooks installed, checks and encodes
scan schemas, and plans how a build obtains and links the engine.

- `src/` is the verified library. Every function states what it returns; the `law_` proof
  functions state what holds across functions.
- `app/` binds the library to the engine's C interface (`partition_routing.rs`) and runs the build
  (`build_script.rs`).
- `tests/` exercises the library on concrete values.

What is believed without proof stands in `src/text.rs`: the contract of `String::push`, and that
`{:?}` of a string slice depends on the text alone.
