# nanopi_cli

The decisions that the `nanopi` command line makes before it hands a run to
the agent, as a verified library:

- `src/cli.rs` — the arguments, `nanopi init` detection, the version string,
  output format, trust flags, and where print mode takes its message from;
- `src/settings.rs` — how the model, the base URL and the API key are resolved
  from flag, environment and `config.toml`, and when the first-run wizard runs;
- `src/provider.rs` — the wire-protocol kind, its display name, and the notices
  printed about it;
- `src/paths.rs` — `~/` expansion into `$HOME/`, on the bytes of a path;
- `src/text.rs` — Unicode white space, trimming and comparison.

`app/main.rs` is the program: it parses the arguments with clap, reads the
environment, the files and the terminal, asks the library, and runs the
agent's print mode or TUI.
