# rust_api_backend

The verified core of a support-ticket and error-report backend.

- `src/` is the library, checked by Verus:
  - `texto`: whitespace trimming, decimal rendering, joining, `i32` parsing;
  - `tiempo`: instants in nanoseconds and their whole seconds;
  - `models`: tickets, follow-up entries, payloads, the caller's identity;
  - `services`: the decisions of the two ticket workflows and the laws that
    tie them to each other, the WebSocket connection registry, and the
    push-notification credentials, claims, token cache and messages;
  - `handlers`: what the endpoints decide before they call a service.
- `app/` is the server around it: the database tables and queries, the HTTP
  endpoints and routes, the shared socket registry and the push-notification
  client.
- `tests/` exercises the library on concrete values.
