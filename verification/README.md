# turtl_core

The startup and serialization core of the Turtl app, verified with Verus.

- `src/serialize.rs`: the mapping between Rust field names and JSON keys
  (`type_`/`type`, `mod_`/`mod`), the keys a struct is written under, and
  which JSON entry each field is read from; with proofs that the mapping
  undoes itself and that written keys are read back into their own fields.
- `src/runtime.rs`: reading the runtime configuration (its `data_folder`,
  `/tmp/` by default) and whether the data folder must be created.
- `src/logging.rs`: the logger settings and `init`, which installs the
  global logger.
- `src/start.rs`: the steps of the main thread, and the steps and status
  codes of the C entry point.
- `src/error.rs`, `src/strings.rs`: the error type and string comparison.
- `app/`: threads, the file system and the C entry point around the library.
- `tests/`: the tests, run against the compiled library.
