# rivetr

The verified core of the rivetr deployment platform's HTTP API: the rules
the API applies to apps, deployments, databases, users and tokens, written
in Verus with their contracts proved.

## Layout

- `src/` — the library. Each module covers one area of the API: request and
  response types, the decisions taken on a request (what is refused and with
  which error, what is stored, what is answered), and the commands and names
  derived for containers. Laws that relate several functions are public
  proof functions named `law_*`.
- `src/text.rs`, `src/numbers.rs` — character-level string helpers and
  decimal rendering and parsing, shared by the other modules.
- `src/crypto.rs`, `src/unicode.rs`, `src/matching.rs`, `src/clock.rs`,
  `src/ids.rs` — the calls into outside crates (`sha2`, `argon2`, `rand`,
  `subtle`, `regex`, `chrono`, `uuid`) and the standard library whose
  contracts are trusted, each with its name for what it returns. A few
  more trusted calls stand beside the one function that needs them:
  `base64` in `src/databases.rs`, `serde_json` in `src/apps.rs` and
  `std::path` in `src/clone.rs`.
- `tests/` — tests of the library on concrete values.
- `app/` — the code around the library: reading HTTP headers, JSON forms of
  the library's types, floating-point checks, the clock, and the checks made
  before calling functions with preconditions.
