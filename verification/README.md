# royalboard

The session, cookie, account and page-model logic of the RoyalBoard web
application, written in Verus with its contracts proved.

- `src/` — the verified library:
  - `cookie`: reading cookie values out of a `Cookie` header;
  - `token`: random session, CSRF, refresh and remember-me tokens;
  - `session`: sessions, their `Set-Cookie` values, taking a stored session up
    again and renewing it, and the round-trip laws between them;
  - `user`: user rows and the login check (bcrypt);
  - `holder`: the per-request data handed to the handlers;
  - `sidebar`, `layout`: the page models;
  - `routes`: the handlers' decisions and the public-file check;
  - `text`: small text operations.
- `app/` — the server: Redis and MySQL access, the yarte templates and the
  water_http controllers, calling into the library.
- `tests/` — tests of the library.
