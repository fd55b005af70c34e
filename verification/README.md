# lazer_stats

Verified core of a small web service that records how many osu! players are
on the stable and on the lazer client, serves the latest counts, their peaks
and their history as graphs, and estimates when lazer reaches a given share.

- `src/` is the library, verified with Verus: the stored rows and the
  responses built from them (`models`, `types`), the cache and its staleness
  test (`types`), the summing of the changelog's stream counts (`changelog`),
  the choice of rows for the adoption regression (`regression`), the routing
  of history requests (`history`) and the UTC timestamps that chrono accepts
  (`time`).
- `app/` is the service around it: the HTTP routes, the Postgres queries,
  the osu! API client, the periodic refresh, and the floating-point parts
  (the lazer share and the logistic fit).
- `tests/` runs the library on concrete values.
