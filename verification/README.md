# Vapor Registry (verified core)

The Vapor Registry records the external provider accounts that own Vapor
resources, the Vapor-compatible repositories, and the top-level repositories
from which an ecosystem is reconstructed, and serves them over a read API.

- `src/` is the verified library:
  - `types.rs`: the reply records and the status builder;
  - `model.rs`: the registry tables as mathematical sets, what each write does
    to them (including the schema's constraints), and the proof that every
    accepted write keeps the store consistent;
  - `plan.rs`: the SQL of every write and of the schema migrations, with the
    typed writes and their parameters;
  - `seed.rs`: the official bootstrap records and the start-up plan;
  - `seed_laws.rs`: what seeding does, that it is idempotent, and what the
    lookups answer afterwards;
  - `query.rs`: the meaning of the read queries (matching, joins, ordering);
  - `lookup.rs`: the read queries, the step after a lookup's first query and
    the assembly of the replies;
  - `api.rs`: the error replies and the decision between a reply and `404`;
  - `text.rs`: decimal rendering of the schema version.
- `app/` is the server: configuration, the SQLite connection, running the
  statements, and the HTTP routes.
- `tests/store.rs` runs the library's statements against an in-memory SQLite
  store; `tests/library.rs` exercises the verified functions directly.
