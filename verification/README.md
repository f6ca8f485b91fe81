# task_backend

A small task-tracking HTTP service (users register, log in with a bearer
token, and create, list and update their own tasks), with its logic verified
by Verus.

* `src/` — the verified library:
  * `error` — error kinds, messages and the HTTP status of each;
  * `text` — white-space, prefix and digit helpers;
  * `models` — stored rows, request and response bodies, task statuses;
  * `utils` — slugs (`TBD-` and three digits), UUID v4 identifiers, timestamps;
  * `db` — the rows inserted, page offsets, count reading, status checks;
  * `password` — bcrypt hashing and checking of passwords;
  * `handlers` — page defaults, request validation, login and registration answers;
  * `account` — registration and login as state machines driven by the app;
  * `middleware` — the `Authorization: Bearer` rules.
* `app/` — the actix-web server, the MySQL queries (sqlx) and token signing
  (jsonwebtoken), which run what the library decides.
* `tests/` — tests of the library on concrete values.

The server reads `DATABASE_URL`, `PORT` (default 8080) and `JWT_SECRET`; it
refuses to start without a database URL or a signing secret.
