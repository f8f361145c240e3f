# psmeter

A self-hosted, cookie-less web analytics service. A one-line script on a site
posts page views and custom events; the server stores them in an embedded
SQLite file, folds finished hours and days into pre-aggregated tables, and
answers traffic figures and live visitor counts to an administrator dashboard.

- `src/` is the library, verified with Verus: user-agent classification, the
  daily-rotating visitor identity, time buckets and stats routing, the rollup
  windows, the SQL statements and the SQLite store, the decisions of every HTTP
  endpoint, and the choice of dashboard file.
- `app/` is the HTTP server (axum, tokio) around it: routes, JSON, the
  WebSocket live feed, the configuration file and the embedded assets.
- `tests/` exercises the library, including a store on temporary database files.
