# xenstore_async

An asynchronous Xenstore client whose
logic is verified with Verus.

- `src/` is the library. It holds what is decided and computed: messages and their payloads, the
  operations of a client, the table that keeps concurrent requests and watches apart, the steps of
  the tasks behind a client, and the order in which the ways to Xenstore are tried. Every function
  states in its contract what it returns. `laws.rs` and `history.rs` state what holds across
  functions.
- `app/` runs the library on smol executors and on Tokio runtimes: sockets, the xenbus device,
  spawned tasks, awaiting.
- `tests/` runs the library on concrete values.

What is taken on trust stands in `src/channel.rs` (the channels of `flume` and
`futures::channel::oneshot`) and at the top of `src/text.rs` (`String::from_utf8`).
