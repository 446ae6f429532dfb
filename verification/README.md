# soccer_sentiment

A small HTTP API over a table of football-club fan-sentiment records.

- `src/` is the verified library: query-parameter validation, planning of the
  parameterised SQL statement for the sentiment listing, the reply of every
  endpoint (listing, 400/404/500 errors), and the decoding of list-valued
  columns.
- `app/` is the service around it: axum routing and query-string parsing, the
  SQLite connection that runs the planned statements, and JSON rendering.
- `tests/` exercises the library, partly against an in-memory SQLite database.
