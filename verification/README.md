# rustflow_server

The verified core of RustFlow, a task and workflow management service.

- `src/` is the library, verified with Verus: the task, project and user
  stores (`tasks`, `projects`, `users`, sharing `records`), the error type
  and the reply it becomes (`errors`), API-key authentication (`auth`),
  the outcome of validated bodies and query strings (`extractors`), the
  decisions of the health endpoints, the rate limiter, the request counter
  and the enrichment endpoint (`service`), text helpers (`text`) and the
  laws that relate the store operations (`laws`).
- `app/` is the axum server around it: routing, locks, JSON, validation
  derives, the outbound HTTP client, logging and shutdown.
- `tests/` exercise the library on concrete values.
