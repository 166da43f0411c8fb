# coin_core

The logic of Coin, an expense tracker that keeps its expenses in Firestore and signs its user
in through GitHub's device flow and Google's identity service. The functions in `src/` are
verified with Verus against their contracts, except a few trusted wrappers (marked
`#[verifier::external_body]`) whose contracts Verus takes on trust: `utc_from_timestamp_is_some`
(chrono's `DateTime::<Utc>::from_timestamp`), `system_time_now`, `duration_since_unix_epoch` and
`duration_secs` (the system clock, through `std::time`), all in `src/utils.rs`, and `push_char`
(`String::push`) in `src/decimal.rs`; `src/utils.rs` also declares `std::time::SystemTime` so
that a reading of the clock can be carried through verified code.

- `src/device_flow.rs` — the GitHub device flow: the requests it sends, how replies are read
  (a reply with an `error` field is a refusal), and the decision after an access request.
- `src/oauth/` — state machines for signing in (read keyring, authorize with GitHub, sign in
  to Google, store both credentials) and for refreshing an expired session; the keyring
  entries; `google.rs` builds the sign-in request and reads the identity service's reply.
- `src/auth.rs` — the same for a manager of GitHub credentials alone.
- `src/utils.rs` — expiry of credentials (with a two-minute margin), the clock (what a reading
  of it gives is decided by `utc_timestamp_of_secs`), UTC date-times.
- `src/decimal.rs` — reading and writing decimal integers.
- `src/db.rs`, `src/lib.rs` — the database token and the paths under which expenses are kept.

`app/` is the program around the library: HTTP, keyring, Firestore, serialisation and the
command-line entry point. It drives the state machines of `src/oauth/` with the answers of the
outside services.
