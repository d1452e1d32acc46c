# typesafe_sdk

A client library for the TypeSafe API, with its decisions proved by Verus:
configuration precedence, case-insensitive header merging and credential
redaction, error classification and messages, log filtering, the retry
decision and backoff, and the helpers behind the `typesafe` command line.

- `src/` is the verified library. Contracts are stated over `Seq`, `Map`-like
  specifications and views; laws that span several calls are public proof
  functions (`headers/laws.rs`, `log.rs`, `retry.rs`, `cmd/kit.rs`).
- `app/` is the `typesafe` executable: the process environment, standard
  error, the reqwest transport, the async retry loop that sleeps between the
  attempts the library decides on, JSON wire types, and the command graph.
- `tests/` exercises the library from outside.
