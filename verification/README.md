# moat

A supply-chain hygiene auditor for GitHub organizations, users and
repositories, written in Verus: the decisions it takes are proved against
their contracts.

- `src/` — the verified library: the check catalogue and each check's
  evaluation (`checks/`), the configuration, how replies from the GitHub API
  are read (`support/github.rs`), the audit run and its panels (`runner/`),
  the JSON/markdown report model, workflow analysis, and text utilities.
- `app/` — the `moat` command: argument parsing, HTTP requests, reading the
  clock and the environment, decoding JSON replies and `moat.toml`, and
  printing. Workflow and dependabot YAML is read in `src/`
  (`support/workflows.rs`).
- `tests/` — tests of the library on concrete values.
