# url_shortener

A URL shortener that keeps its links and visit logs in MySQL, with its
decisions verified in Verus. A Redis-backed cache service (keys `url:{code}`,
one-hour lifetime) is set up alongside, though no endpoint reads or writes
it yet.

- `src/` is the verified library: short-code generation, cache keys,
  trimming and the search pattern, pagination arithmetic, the steps of
  creating, updating and deleting links, error texts, and what every HTTP
  endpoint answers.
- `app/` is the server around it: configuration, the MySQL and Redis
  connections, the SQL statements, axum routing and the OpenAPI document.
  It performs the requests that the library's step functions ask for.
- `tests/` runs the library on concrete values.
