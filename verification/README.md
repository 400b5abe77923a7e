# near_dao_apis

The decision logic of a service that mirrors NEAR Sputnik DAO activity from
the NEAR BigQuery dataset into PostgreSQL and serves it over HTTP, written in
Verus and verified.

- `src/json.rs` — a JSON document model and the member, text and integer
  readers the logic uses.
- `src/text.rs` — decimal formatting of integers.
- `src/bigquery.rs` — the BigQuery client: its queries, and how a proposal's
  kind and details are read from the arguments of an `add_proposal` call.
  The calls that send the queries are I/O and stand in `app/bigquery.rs`.
- `src/sync.rs` — which proposal and vote rows a call leads to.
- `src/sync_run.rs` — a sync run as a state machine: the caller fetches and
  stores what each command asks, and hands back what came of it; each step
  reports why the proposals and votes it passed over could not be read.
- `src/sync_laws.rs` — what holds of every run: order, failure handling,
  the block window, termination.
- `src/routes.rs` — pagination and the endpoints' failure statuses.
- `app/` — the server: configuration, PostgreSQL, the sync loop, axum routes.
