# unseamless_coop

The decisions of a seamless co-op mod for ELDEN RING, verified with Verus.

- `src/` is the library. Every function carries a contract; `lib.rs` says how it is divided.
- `app/` is the process around it: the DLL, the launcher and the harnesses. It reads, writes, hooks and
  draws, and asks the library what to do. `game.rs` reads the game through its SDK, on Windows only. The
  drawing library and the shared protocol crate stand behind traits, because they live elsewhere.
- `tests/` runs the library on concrete values, with the outside crates linked.

A few things are believed rather than proved. `steam.rs` takes SHA-256 from `sha2`. `patch.rs` takes the
search for a byte pattern in an image from `pelite`, and `xinput.rs` the reading of an import table.
`text.rs` states what `String::push` does. Each is a small function whose comment says what is claimed.
