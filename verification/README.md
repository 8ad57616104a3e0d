# ploirc

A low level IRC client library with automatic reconnection, whose decision
logic is verified with Verus.

- `src/error.rs` — the writer's errors and their texts.
- `src/status.rs` — the connection status (closed / connected / disconnected)
  holding the transport, with the answers of disconnect, close and write, and
  the laws that tie them together.
- `src/settings.rs` — reconnection settings and the connection builder.
- `src/reader.rs` — the reader's reconnection loop as a machine from the
  answer of each outside operation to the next operation, with its laws
  (unlimited attempts, exit on a gone listener, exit only once closed, no
  attempt once closed).
- `src/trace.rs` — laws over whole runs of that loop: the attempt counter
  of each episode, giving up only after the allowed number of failures, and
  the order of the events handed to the listener.
- `app/` — sockets, TLS, text codecs, threads and channels that perform the
  operations the library asks for.
- `tests/` — concrete scenarios of the above.
