# saturn

The decision logic of Saturn, a distributed delayed job scheduler, as a
verified library, and the services that run it.

- `src/` — the verified library:
  - `text` — the characters of a string; decimal `i32` parsing.
  - `time` — UTC timestamps; RFC 3339 parsing through chrono.
  - `jobs` — submission validation, the statuses of refused submissions,
    the reply after the group commit and the Redis write.
  - `batch` — the group-commit batch collector, batch columns and
    per-submitter replies, and the index-marker buffer.
  - `scheduler` — due-id parsing and the sorted-set cleanup of a pass.
  - `worker` — claim, lease renewal, execution outcome, verdict, final
    acknowledgement, and the per-message handler state machine.
  - `stream` — picking jobs out of stream read and take-over replies,
    consumer-group creation.
  - `recovery` — re-indexing forgotten jobs.
  - `lifecycle` — the job row, the effect of every conditional UPDATE, and
    the laws of ownership, fencing and recovery.
  - `error`, `config`, `json` — shared types.
- `app/` — the services (API, scheduler, worker, sweepers, migrations):
  PostgreSQL, Redis, HTTP, timers and signals.
- `tests/` — tests of the library on concrete values.
