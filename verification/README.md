# syncroom

A server in which clients share rooms that play a video playlist together.

- `src/` is the library, verified with Verus: the broadcast channel built on
  `flume` (`fanout`, with the `flume` calls in `channel`), the registry of
  rooms (`manager`), a room's playlist and playback clock (`room`, with the
  clock in `clock`), the client messages (`msg`) and what a client's
  connection decides on each frame and message (`user`, `user_con`).
- `app/` is the program around it: the HTTP server, the websocket actors, the
  JSON forms of the messages, and the awaiting forms of the channel calls.
- `tests/` runs the library against the real outside crates.

`Cargo.toml` names `actix-web` only to switch on its `ws` feature, which
`actix-web-actors` relies on to build.
