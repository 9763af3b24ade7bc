# smok_finance

The rules of Smok Finance, a local-first personal finance application,
verified with Verus.

- `src/` is the library. Each database operation of the store (listing,
  reading, creating, updating and archiving accounts; listing, searching,
  reading, creating and updating payees) is a flow: it issues a request
  that names the exact values a SQL statement binds, is handed the
  database's reply, and either asks again or finishes. The contracts say
  what every step asks and returns, and which checks must have passed
  before a row is written. `src/store.rs` models the accounts and payees tables and
  what each request does to it; the lemmas in `src/accounts.rs` show that
  every write the flows allow keeps the table consistent. `src/api.rs` holds the paging of listings, the
  defaults of request bodies and the HTTP answer to each error.
- `app/` is the server: SQLite through `sqlx`, HTTP through `axum`, and
  the loop that runs the flows.
- `tests/` runs the flows on concrete answers.
