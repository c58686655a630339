# stepflow

The decision logic of the stepflow workflow gateway, verified with Verus.

- `src/` is the verified library: the activity task lifecycle, starting and
  reading workflow runs, templates, timers, queue tasks and history events,
  the query parameters of the routes, the worker protocol, the table of
  live engines and the event runner's steps on it, the event hooks
  (persistence, websocket, metrics), the batching of the event dispatcher
  and the order in which it hands events on,
  and the text formats these rest on (decimal integers, white space, JSON
  framing). JSON values are held as their JSON text and instants as RFC 3339
  text; `serde_json`, `chrono` and `uuid` are called behind small trusted
  wrappers whose contracts say what the library relies on.
- `tests/` runs the library on concrete values.
- `app/` is the running gateway around it: the wire forms of the records,
  the axum routes and middleware, the services that read and write the
  store, the dispatcher's tokio loop and the hooks' side effects, the tool
  worker's HTTP client and the Flutter bridge. The store, the workflow
  engine and the matching service are the interfaces in `app/ports.rs`.
