# worker-sandbox

A Cloudflare Workers sandbox whose request handling is verified with Verus.

- `src/` is the verified library: what each route answers (`routes`,
  `classic_routes`), the alarm durable object as a step machine over its
  storage (`durable`), the start and queue events (`queue`), the checks that
  cloned requests and responses keep what they were cloned from
  (`clone_check`), decimal writing and reading (`decimal`), replies
  (`reply`) and the `http` header map it fills (`headers`).
- `app/` runs on the Workers runtime: it routes requests, performs fetches,
  storage and durable object calls, and hands the library plain values.
- `tests/` exercise the library on concrete values.
