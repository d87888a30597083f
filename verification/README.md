# cayopay_server

The CayoPay server: users, guests, invites, sessions, wallets and shops behind an HTTP API,
with permissions granted per user and per resource.

- `src/` is the library, verified with Verus: typed identifiers and credentials, the
  permission catalogue, the permission checks, the onboarding and session decisions, the
  step-by-step flows of registering, inviting, accepting an invite and authenticating, the
  error replies, and the SQL statements of every store together with the values they bind.
- `app/` is the server around it: configuration, the Postgres pool, the HTTP routes and
  extractors, the mailer and the OpenAPI document. It runs the statements the library plans
  and hands the library what it read.
- `tests/` exercises the library on concrete values.
