# redis_kv

A small Redis-style key-value service built on the `mini-redis` crate, with
its logic verified by Verus.

- `src/` is the verified library: the protocol frames and commands
  (`frame`, `command`), the key-value store (`store`), what the server does
  with each frame, from one store that all its connections share (`server`),
  the accept-retry policy of the listener (`listener`), the clerk's decision
  on the outcome of a `SET` (`clerk`, `text`) and the lines that report
  outcomes (`report`).
- `app/` holds the programs: the server, the scripted clients, the
  command-line client and an async demo; they do the network I/O with `tokio`
  and `mini-redis` and ask the library what to do.
- `tests/` runs the library on concrete values.
