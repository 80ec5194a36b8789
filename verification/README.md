# codex-plus-core

The core of Codex++'s Agent Context panel and of its cache telemetry, as a
Verus library.

- `src/` is the verified library: the panel configuration and status, the
  command lines of the `agent-context` tool, how the tool's reports become
  what the panel shows, the decisions of each panel operation (what to run,
  what status to save, what to answer), the prewarm at launch, the state
  directory and its files, and the token counts and totals of the cache
  telemetry. `src/laws.rs` holds the properties proved of the library as a
  whole.
- `app/` reads and writes the files, runs the tool, parses and prints JSON
  with `serde`, keeps the process-wide file overrides of tests, and computes
  the floating-point cache hit rates.
- `tests/` exercises the library on concrete values.
