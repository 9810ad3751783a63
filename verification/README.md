# seer

A small personal-data service: what is playing now (Last.fm), the reading
list (Hardcover), where its owner is (GeoJSON locations stored in Postgres)
and the weather there (OpenWeatherMap), behind a shared Redis cache.

- `src/` is the verified library. It holds the service's decisions and
  formats: which shelf a request names and how a page of it is asked for and
  assembled, how authors are named, cache keys and lifetimes, how a position
  is read out of a GeoJSON document, every reply (status, message, data),
  connection URLs, settings validation and the telemetry set-up decisions.
  Calls into `urlencoding`, `regex` and `validator`, and std's `Debug` for
  strings, stand behind the trusted items of `src/outside.rs`.
- `app/` is the HTTP service around it: settings loading, connections,
  routing, and each handler's cache, database and upstream I/O.
- `tests/` runs the library on concrete values.
