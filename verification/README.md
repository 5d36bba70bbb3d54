# nanogpt-cli

A command line and full-screen terminal client for NanoGPT, written in Rust and verified with Verus.

- `src/` is the library: what the client decides and computes. Every function carries a contract
  that Verus proves. What it leaves to other crates (JSON, URLs, dates, patterns, screen layout)
  stands behind a few declared boundaries, each with the facts it is trusted for.
- `app/` is the program around it: arguments, files, HTTP, child processes and the terminal.
- `tests/` runs the library on concrete values.

| Module | Holds |
| --- | --- |
| `text`, `search`, `lines`, `letter`, `number`, `order` | text and sorting |
| `json`, `wire` | JSON values, URLs, headers and forms |
| `stamp`, `ident`, `home` | times, identifiers, the home directory |
| `model_mode`, `model_mode_laws` | web routing of a model |
| `conversation`, `app_config` | what is kept on disk |
| `client`, `cli`, `commands` | requests, replies and the one-shot commands |
| `chat` | the line-by-line chat |
| `agent` | tool calls, the workspace they may touch, and the turn they belong to |
| `tui` | the full-screen chat: state, keys, dialogs, Markdown and drawing |

The proof functions whose names begin with `law_` state what holds of the library as a whole.
