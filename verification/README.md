# todo_app

The decision logic of a small todo-list web service (axum, SQLite, askama
templates, htmx front end) with accounts and cookie sessions, written in Verus.

- `src/` is the verified library:
  - `token` — session tokens: decimal text for the cookie, little-endian key
    bytes for the sessions table, with their round-trip laws.
  - `cookies` — reading the session token from `Cookie` headers, the
    `Set-Cookie` answers for login and logout, and the laws that tie them.
  - `time` — UTC timestamps and the `chrono` operations sessions use.
  - `sessions` — making a session, and authenticating a request as a state
    machine (look up, judge expiry, delete expired).
  - `auth` — registration and login as state machines over database events.
  - `credentials`, `ids`, `errors`, `models`, `todos` — passwords and e-mail
    keys, fresh UUIDs, error answers, records, new todo items.
- `app/` is the server: routes, SQL queries, templates and the loops that
  perform the actions the library's state machines return.
- `tests/` runs the library on concrete values.
