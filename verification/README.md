# qrush

A Redis-backed job queue with delayed jobs, cron jobs, a metrics dashboard and a
command line. The decisions of the queue are a library verified with Verus; the
program around it talks to Redis, runs the workers and serves the dashboard.

## Layout

- `src/` — the verified library.
  - `cron/field.rs`: the grammar of one cron field (lists, ranges, steps) and the mask
    of values it allows; `cron/parser.rs`: six-field cron expressions and the earliest
    instant after a given one at which an expression fires; `cron/laws.rs`: the next
    instant of schedules that fire every `n` seconds of every day, once a week or on the
    first of each month, stated over the masks a pattern holds.
  - `cron/scheduler.rs`: registering, running, rescheduling, listing, toggling,
    deleting and running cron jobs by hand, as Redis writes.
  - `queue.rs`, `runner.rs`: the writes of enqueueing (at once or delayed), of a
    worker's outcome, and of promoting due delayed jobs.
  - `store.rs`: a model of the Redis data and the laws the writes keep (what reads
    give back afterwards).
  - `config.rs`: queue configuration and the write-once settings.
  - `basic_auth.rs`: the dashboard's basic-auth check.
  - `jconfig.rs`, `dashboard.rs`, `cli.rs`: job entries, dashboard counts and the
    command line's decisions.
  - `json.rs`: the calls into `serde_json` that build job payloads and worker records
    and read worker records back.
  - `time.rs`, `text.rs`, `keys.rs`, `ops.rs`, `hash.rs`: instants, strings, Redis
    keys, Redis writes as values, and reading hashes.
- `tests/` — tests of the library.
- `app/` — the program: settings, Redis connection and execution of writes, job
  traits and registry, worker and cron loops, web routes and the command line.
