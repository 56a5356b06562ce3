# pgtask

A durable task queue on PostgreSQL. Tasks are enqueued with SQL functions, claimed by workers under
leases, retried after a backoff, scheduled by an interval or a cron expression, and shown on an
operator's web page.

`src/` holds what the engine decides and computes from plain values, proved with Verus:

- names, identifiers, times and JSON values: `identifier`, `unique`, `time`, `number`, `text`,
  `json`, `table`;
- what a task is and when it is tried again: `task`, `retry`, `schedule`, `calendar`, `protocol`;
- what is sent to the database and read from it: `requests`, `rows`, `store`, `error`;
- a running worker as state machines: `worker`, `registry`, `execution`, `leases`, `runtime`,
  `control`, `health`, `notification`;
- measurements and trace headers: `metrics`, `propagation`;
- the programs: `model`, `escape`, `pages`, `web`, `settings`, `bench`, `cli`, `binding`.

`app/` does the input and output: it runs the statements, waits, serves the pages and parses the
arguments. The program's name picks what it runs: `pgtask`, `pgtask-web`, `pgtask-bench` or
`pgtask-smoke`. The SQL migrations are read from `PGTASK_MIGRATIONS`, or from `migrations`.

`tests/` runs the library with the crates that it calls.
