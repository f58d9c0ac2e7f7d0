# catapulte

The decisions of an email service on Cloudflare Workers, verified with Verus:
storage and queue on a Durable Object, storage on D1, attachments in R2, delivery
through a Worker with a `send_email` binding, and the HTTP surface.

The library does no I/O. For every operation it says what to ask of the database,
the bucket or the Worker, and what the answer comes to.

- `src/email.rs`, `src/id.rs`, `src/variables.rs`: the entities.
- `src/dto.rs`, `src/rows.rs`, `src/query.rs`: the stored shapes, the rows and the
  SQL.
- `src/tables.rs`: what the queries mean, as a model of the two tables.
- `src/save.rs`, `src/do_store.rs`, `src/d1.rs`: the storage adapters.
- `src/r2.rs`: attachment storage.
- `src/mime.rs`, `src/cloudflare.rs`: messages and their delivery.
- `src/submit.rs`: requests and responses.
- `src/laws.rs`: what holds of storage and queue as a whole.

`app/` is the host: it runs the queries and requests and holds the JSON shapes.
