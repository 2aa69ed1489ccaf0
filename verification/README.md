# bromine

Event-based interprocess communication over TCP, Unix sockets or an encrypted
layer on top of either.

The crate is in two parts:

- `src/` is the library, verified with Verus: the byte format of events,
  headers, payloads and encrypted packages (each with a proof that what is
  written reads back), the routing of received events, the replies a handler
  sends, the reply-stream state machine, connection pools, event ids and the
  key agreement and cipher of the encryption layer. Calls into the
  cryptography crates stand behind small trusted wrappers in
  `src/protocol/encrypted/crypto.rs`.
- `app/` is the asynchronous side on top of it (tokio transports, contexts,
  builders, the serde formats), ordinary Rust that asks the library for every
  decision.

`tests/` runs the library on concrete values.
