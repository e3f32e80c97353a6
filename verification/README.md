# cassiopeia_example_runner

Runs and checks the Cassiopeia examples: every example directory declares its datasets, its
Cassiopeia invocation, and what the run must produce, and this tool downloads, runs, and verifies
each one, keeps each page's commands in step with its descriptor, and generates the README index.

## Layout

- `src/` is the library, written in Verus: the descriptor's typed parts and their validation, the
  command lines a page documents and a run executes, the page and README checks, the assessment of
  what a run produced, the broker queries and how their answers are read, the download retry
  decisions, the plan a whole run follows, and the message every failure prints as. Every function
  there carries a contract that Verus proves; calls into `url`, `humantime`, `serde_json`, `toml`,
  `rustix` and `ureq` go through small trusted wrappers whose contracts are stated beside them.
- `app/` is the command-line program around it: argument parsing, files, processes, HTTP, the TOML
  and JSON encodings, and the loops that alternate them with the library's decisions.
- `tests/` exercises the library with concrete values.
