# game_server_manager

The decision logic of a self-hosted game-server platform, verified with Verus.
The platform has two services: a backend that keeps users, nodes and servers
in a database and asks node daemons to act, and a daemon on each node that
runs game servers as Docker containers and serves the files of their volumes.

## Layout

- `src/` — the verified library.
  - `text.rs`, `string_map.rs` — character-level helpers (trimming, splitting,
    joining, decimal rendering) and a small string map, stated over `Seq<char>`
    and `Map`.
  - `daemon/` — request checks, game presets and container specifications,
    path normalisation inside server volumes, the container record, Docker
    log parsing, listing order, bearer authentication and configuration.
  - `backend/` — configuration, creation-request rules, password and token
    handling, the plan of each call to a node daemon, and the server creation
    and start/stop/restart flows as state machines.
- `app/` — the HTTP services around the library: axum routes, Docker calls
  through bollard, the database through sqlx, node calls through reqwest, and
  the serde copies of the library's types.
- `tests/` — tests of the library on concrete values.

Each public function states in its contract what it returns; where a result
rests on the clock or on a random salt, the contract states what holds of
every outcome (for a token, `issue_access_token_at` takes the second as an
argument and states the token exactly).  The laws that relate several functions are public proof
functions named `law_*`.
