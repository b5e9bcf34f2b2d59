# simplememo

The core of a small memo pad with a few pages (a Tauri desktop program),
written in Verus so that its rules are proved against their contracts.

- `src/encoding.rs` — Shift_JIS / UTF-8 detection, decoding and encoding
  (through `chardetng` and `encoding_rs`), with the round-trip laws.
- `src/path.rs` — the path operations and file-name sanitizing the rules rely
  on (`std::path`, `sanitize_filename`).
- `src/memo.rs` — one page: loading a file into it and saving it, as
  decisions on what the file system reports.
- `src/setting.rs` — the shared settings, their defaults and validation.
- `src/manager.rs` — all pages together with the shared settings.
- `src/flow.rs` — the decisions behind dialogs, menus and windows: retries
  after a failed load or save, the context menu's entries and the command
  each entry stands for, when the main window takes input, and the steps and
  question before the program ends.
- `src/laws.rs` — properties that span several operations.
- `app/` — the Tauri program: windows, menus, dialogs, commands from the web
  front end and the file system, calling the library for every decision.
