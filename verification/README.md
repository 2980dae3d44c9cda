# storm_services

Verified core of a small events platform: an events Lambda that stores
events in DynamoDB under normalised partition keys, and a public HTTP API
that lists them and, behind a shared-secret token, saves them.

- `src/` — the verified library: key normalisation and the
  storage keys of events (`events`), token authorisation (`auth`), the
  decisions of the API handlers (`controllers`, `routes`), the reading of a
  Lambda invocation's answer (`client`), error values (`errors`), request
  models (`models`, `core_api`), settings (`config`), partial application
  helpers (`functional`) and the std primitives they rest on (`text`).
- `app/` — the services themselves: Lambda runtimes, DynamoDB and Lambda
  clients, serde wire models, HTTP responses.
- `tests/` — tests of the library.
