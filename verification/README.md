# hermes

A sandboxed code-execution engine. The library (`src/`) holds the engine's
decisions, verified with Verus; `app/` is the HTTP server around it.

- `config` — language settings: defaults, checking raw settings
  (`LangConfig::from_raw`), requests, responses, request validation, lookup.
- `registry` — the language table (`LangRegistry`), a map from language name
  to settings.
- `languages` — per-language preparation (C++, Java, JavaScript, and any
  other interpreted language such as Python, run by its configured runtime):
  which files to write, what is refused, and the build and run commands.
- `engine::exe` — one request as a state machine: the caller writes files and
  runs sandbox commands when asked and reports back; the session answers.
- `engine::workers`, `workers` — sandbox boxes and their working directories.
- `runner` — the `isolate` command line for a run; `DEBUG=true` keeps the
  sandbox's own log output (no `--silent`).
- `pattern` — regular expressions through the `regex` crate.
- `text` — string helpers (search, prefixes, decimal rendering).
- `models`, `loader`, `exe` — settings with numeric limits and their
  lookup, and the build-and-run shell line.

`app/` reads `config.json` and the environment, serves `/execute/` (one file)
and `/execute/multi/` (several files), keeps the pool of `isolate` boxes, and
performs the file writes and sandbox runs the library asks for.
