# token_use

The leaderboard and tray logic of the Token Use desktop app, verified with
Verus.

- `src/` is the verified library:
  - `store.rs`: the leaderboard store (profiles, GitHub login sessions,
    usage snapshots) with its invariant and an exact model of every write;
  - `ranking.rs`: the leaderboard of a period (ordered by tokens, then
    requests, then login; the first hundred rows, ranked from 1);
  - `login.rs`: the GitHub device login, remote opt-in and snapshot upload
    as decisions between remote calls;
  - `range.rs`, `remote.rs`, `model.rs`: periods and their windows, service settings, data
    types and errors;
  - `tray.rs`, `float_bits.rs`, `text.rs`: tray texts and usage summaries,
    utilization values read by their IEEE-754 bit patterns, string helpers;
  - `clock.rs`: the system clock, and session ids from getrandom and uuid,
    each refused with an error when the system cannot provide it;
  - `laws.rs`: properties that span several operations.
- `tests/` runs the library on concrete values.
- `app/` is the unverified shell: HTTP calls with reqwest, local calendar
  windows with chrono, SQLite persistence with rusqlite, serde wire types,
  and the floating-point parts of the tray texts.
