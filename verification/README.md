# backend

The decision logic of the IndraCore registration service, verified with
Verus, and the server that runs it.

- `src/` — the verified library. Each HTTP handler is a state machine:
  `*_begin` takes the request and names the first database query, each
  `*_on_*` step takes the database's answer and returns the next query or
  the reply. `outside.rs` holds the trusted calls into `bcrypt`, `uuid` and
  `str::to_uppercase`; `laws.rs` holds properties that span handlers.
  `model.rs` models the database: what each write does (`apply`) and what
  each read answers. Over that model it states the registration path and
  the login reply, and proves: the request lifecycle for every write list
  a handler issues and for every run of them; lock fields that agree with
  the status; spent invite codes refused; repeated votes and
  confirmations changing nothing; and the login reply after a genesis
  registration, an invite generation and an approval.
- `app/` — the axum server: routing, the Neo4j connection, the Cypher text
  of each query and the JSON forms of the types.
- `tests/` — tests of the library on concrete values.
