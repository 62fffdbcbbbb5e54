# limitador_quota

Token-quota metering over Limitador's HTTP API, verified with Verus.

`src/` is the verified library. It computes the POST that a check or a debit is, and reads the
reply. `app/` makes the exchange, as an asynchronous backend. `tests/` run the library on
concrete values.

What is trusted, beside Verus, vstd and the Rust standard library, stands in `src/json.rs`
(`serde_json`) and `src/transport.rs` (`reqwest`).
