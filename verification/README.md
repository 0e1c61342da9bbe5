# rust_worker

A Redis Streams job worker with at-least-once delivery, written in Verus.

The library (`src/`) holds every decision of the worker, each with a contract proved by
Verus:

- `worker` — the read loop as a state machine: reads after the kept position, the
  completed-marker checks, the processing checkpoint, the job run, the completed marker,
  moving and keeping the position, the sleeps, and trimming.
- `runner` — one job run of the external runner with a time limit, as a state machine.
- `stream`, `resp` — decoding stream-read replies without failing on malformed payloads.
- `trim` — the `XTRIM MINID` watermark, never past the last handled entry.
- `backoff` — the reconnect schedule.
- `config` — settings from optional texts with defaults.
- `store` — store keys and commands.
- `text`, `decode`, `clock` — decimal text, UTF-8 decoding, the wall clock.
- `laws` — properties of the worker over all of its steps.

The program (`app/main.rs`) performs what the state machines ask for: store commands through
the `redis` crate, the runner process, sleeps and the clock.
