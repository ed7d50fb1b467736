# web_service

A web front end for the Gemini command line tool: it keeps chat sessions and
workspaces, checks credentials, talks to a Node.js helper process over a
line-based JSON protocol, and stores sessions, messages and tool approvals in
SQLite.

The library (`src/`) is verified with Verus. It holds the decisions:

- `auth` — credential rules for API keys, Vertex AI and existing logins, and the
  per-workspace authentication records;
- `chat` — chat sessions, canned replies and tool approvals;
- `workspace` — workspaces indexed by identifier and by canonical path, with
  their session lists. The path index is a vector of (path, identifier) pairs
  whose invariant is that no path occurs twice; it is viewed as a map from
  paths to identifiers. It stands in place of a `HashMap<String, _>` because
  vstd's model of a hash map's contents holds only for key types it declares
  to obey that model (`bool`, the integer types, and boxes of them); for
  `String` keys it would have to be assumed, and the library assumes nothing;
- `bridge` — the requests sent to the helper process and how its replies are read;
- `api` — the HTTP endpoints as step functions from stage and call outcome to the
  next stage (opening a session checks the credentials before the workspace
  directory is made);
- `db` — the stored records;
- `json`, `text`, `paths`, `ids` — a JSON tree, string operations, path
  arithmetic, identifiers and time.

`app/` is the server itself (axum routes, SQLite through sqlx, the helper
process, serde conversions); it runs the library's step functions and performs
the calls they ask for.
