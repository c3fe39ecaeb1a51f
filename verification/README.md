# neo4rs_bolt

The value types of the Bolt protocol's PackStream format, verified with Verus.

- `src/types/` holds the PackStream values (`BoltType` and its parts) with
  their wire format: `write_into`, `into_bytes` and `parse`, each stated
  against the byte encoding in `src/wire.rs`.
- `src/roundtrip.rs` proves that reading back what was written gives the value.
- `src/convert.rs`, `src/tuples.rs` and `src/extract.rs` convert values into
  Rust types, with the errors of `src/de.rs`; `src/builder.rs` collects the fields of graph
  elements as they are read, and `src/fields.rs` those of temporal values,
  durations and points.
- `src/temporal.rs` converts temporal values to and from the plain values that
  `chrono`'s date and time types hold.
- `src/concurrent_hashmap.rs` is a map shared between clones behind a lock.
- `src/laws.rs` states what holds across operations.
- `app/` holds what the library leaves out: `Display` and `std::error::Error`
  for the errors, a `serde` deserializer over the values, conversions to
  `chrono`'s types, and floating point numbers.
