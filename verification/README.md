# backend

The logic of a fuel-quote web backend, verified with Verus.

- `src/` — the verified library: password registration and login decisions
  (PBKDF2 through `ring`, ids through `uuid`), session tokens (HMAC-SHA256 JWTs
  through `jwt`, expiry through `time`), the cookie jar of a request, the
  settings and their defaults, and the page each route answers with.
- `app/` — the Rocket server around it: routes, SQLite access through `sqlx`,
  the settings file, template rendering.
- `tests/` — tests of the library.
