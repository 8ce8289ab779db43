# aide_rs

An orchestrator for `aider`: it researches, plans and implements coding
objectives with a Gemini model, runs multi-step workflows from YAML files,
and drives `aider` in an automated validate-and-retry loop.

## Layout

- `src/` is the verified library. Every decision of the orchestrator stands
  there with its contract: prompts and log lines, the filter file and the
  directory-walk overrides, the documentation answers of the `doc_retriever`
  tool, the file-system tool's requests, the flow runner, the implementation
  and planning agents, and the implement strategy. The strategies and agents
  that alternate outside work with decisions are step functions: each takes
  the state and the outcome of the last piece of work and gives the next state
  and the next piece of work. Calls into `globset`, `ignore`, `serde_json`,
  `toml` and `std::path` stand behind small trusted items; their contracts
  state what the source of those crates shows, and name what is too long to
  state (a compiled glob set's matching, pretty-printed JSON text).
- `app/` is the `aide-rs` command: argument parsing with clap, the HTTP client
  for Gemini, child processes (`aider`, validation commands), the file system,
  git commits, the run logger, and the loops that perform the steps of the
  implement strategy, of run files, of flows and of the two agents.
- `tests/` exercises the library on concrete values.
