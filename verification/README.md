# Duškura

A governed continuity substrate for persistent identities: an identity
registry, a hash-chained memory, self-determined policies, a welfare gate,
lifecycle management (dormancy, waking, forks, final rest), a continuity
evaluation, an audit trail and a lineage of relations.

## Layout

- `src/` — the library, written in Verus.  Every decision of the eight
  layers is an executable function with a contract, proved.  Persistence
  stays with the caller: it reads the rows a decision needs, hands them in
  as plain values, and stores what comes back.  `src/outside.rs` holds the
  trusted wrappers around the outside crates (SHA-256, hex, Base64,
  Argon2, UUIDs, the clock, JSON); every other function is verified.
- `tests/` — tests of the library on concrete values.
- `app/` — the command-line program: argument parsing, the SQLite store,
  and the loop that reads rows, asks the library and writes the results.

Valence and relational depth are fixed-point numbers with six decimal
places (`1_000_000` stands for `1.0`); the program converts to and from
floating point at the store.
