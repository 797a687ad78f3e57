# brook

The core of a download manager: files that are fetched in pieces or as one stream, a queue of
them, and the calls by which clients add, pause, resume and remove them.

`src/` is the library. It is written in Verus, and everything in it is proved against its
contracts. It reads no network, no disk and no channel: engines and the manager are machines
that take in events and give out actions.

- `domain/`: identifiers, descriptions, statuses, events.
- `ports/`: what is known of sources, prepared downloads and rows of repositories.
- `service/retry.rs`: waits between attempts, and the guard against crash loops.
- `service/engine/`: the geometry of pieces, responses drained into pieces, workers, the count of
  pieces and bytes that have arrived, and the engines for files of known and of unknown size. `laws.rs` and `streaming_laws.rs` hold what is
  proved of whole runs.
- `service/manager/`: the registry of files and engines, the queue, commands for one file and for
  all, events of engines, missing files. `laws.rs` holds what every command and event keeps.
- `api/`: tokens, identifiers of requests, messages, and how errors are answered.
- `testing/`: storages, repositories and a source in memory.

`app/` is ordinary Rust around the library: channels, timers, requests, streams of answers, and
progress with its speed. `tests/` runs the library from outside.

A few calls leave the library: random numbers (`rand`), identifiers (`uuid`), comparison of
tokens in constant time (`subtle`), paths and the clock (`std`). Each stands in a small function
whose contract is believed and whose comment says what it claims.
