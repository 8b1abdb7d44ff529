# nex

A coding agent for the terminal. It hands a task to a language model (OpenAI,
Anthropic, OpenRouter or Ollama) and runs the tools that the model calls, each
once the user approves it (or at once with `--yolo`): read and write files,
list directories, run shell commands, show the git status.

- `src/` is the verified library, written in Verus. It holds the decisions:
  the command line's meaning, the settings and their keys, which provider a
  name selects and what its requests hold, how a reply is read, how a tool
  call's arguments are read and which tool it asks for, what each tool
  reports, and the session that moves the conversation on step by step,
  asks for approval and stops on a failure (`agent.rs`). JSON documents are
  modelled in `json.rs`, which reads `serde_json` values; text helpers (UTF-8
  byte lengths, decimal numbers, ordering, trimming) are in `text.rs`.
- `app/` is the program around it: clap, the configuration file, HTTP with
  reqwest, the file system and the shell, reading the user's answers, and
  printing. It carries out the session's actions and reports each outcome,
  a failure included, back to it.
- `tests/` run the library on concrete values.
