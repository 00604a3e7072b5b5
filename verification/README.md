# patchwork

A sharded record store. Each shard keeps records keyed by
`(table_id, partition, hash)` in one SQLite file and serves them over HTTP; a
control plane calls shards by URL.

`src/` is the verified library:

- `text`: decimal text of `i64` values and removal of trailing slashes, with
  the facts that make URLs unambiguous.
- `client`: method and URL of each call on a shard; distinct records and
  partitions get distinct URLs, and a trailing slash on the base URL changes nothing.
- `api`: which shard message each HTTP request becomes (bad ranges answer 400)
  and the status and body of every outcome.
- `shard`: shard messages, the database query that answers each, and a model
  of what each query does to the table and answers (reads in key order).
- `startup`: opening a shard as a sequence of steps, with its rebuild rule.
- `config`: the process settings.
- `data`, `crud`: the record and the control plane's key messages.

`app/` runs the process: axum routes, the kameo actors that run queries
through SeaORM, and the reqwest client.
