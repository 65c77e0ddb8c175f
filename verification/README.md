# riptsk

The decision logic of `tsk`, a plain-text issue tracker for the terminal,
written in Verus: every function in `src/` carries a contract and is proved
against it.

- `src/` — the verified library: the issue and project model, the command-line
  arguments as plain values, the rules of each command (`new`, `branch`, `pr`,
  `done`, `sync`, `recur`, `commit`, `init`, `config`, ...), the records
  exchanged with GitHub, GitLab and Jira, the JSON bodies sent to Jira, CI
  check aggregation (workflow files, required contexts, check runs), the
  step-by-step order of `tsk done`, and the cleaning of AI output. Calls into
  `regex`, `shell-escape`, `minijinja`, `chrono`, `serde_json`,
  `serde_yaml_ng` and `base64` stand behind small trusted wrappers whose
  contracts name what the crate computes.
- `tests/` — tests of the library on concrete values.
- `app/` — a thin command-line front end: argument parsing with `clap`,
  running `git`, the AI command and terminal prompts, handing the results to
  the library. It runs `version`, `help` and `commit`; the issue store, the
  configuration files and the remote providers of the full `tsk` program are
  not part of this crate, so the other commands report that.
