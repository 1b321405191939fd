# backend

The service layer of a personal workspace app: users register and log in,
own workspaces, and keep a tree of nodes (folders, text files, boards) in
each workspace.

- `src/` is the library, verified with Verus. It holds the models (users,
  sessions, workspaces, nodes), the input validation, every decision of the
  services (who may see or change what, which error a request gets, how a
  session is checked, when a move would put a node under itself), the
  mapping of errors to HTTP answers, and the laws that tie them together
  (for instance: an accepted move keeps the node tree free of cycles).
  Password hashing (argon2), UUIDs and the clock are reached through small
  trusted wrappers whose contracts say what the outside code gives.
- `app/` is the HTTP server (axum) and the PostgreSQL store (sqlx). Each
  handler reads what a decision needs from the store, asks the library, and
  writes what it decided.
- `tests/` runs the library on concrete values.
