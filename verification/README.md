# path-opener

Detects installed apps (editors, terminals, file managers, Markdown apps) and
plans the commands that open paths with them, on macOS, Linux and Windows.
A few git helpers (worktree argument builders, `git --version` parsing) sit
alongside.

## Layout

- `src/` — the library, written in Verus. Every function that decides
  something carries a contract and is proved; the probes of the machine it
  makes go through the trusted items of `host.rs`, whose contracts record
  each answer without promising it:
  - `registry.rs` — the built-in openers and how each is launched and
    detected per platform;
  - `opener.rs` — the public data types (`FileSupport`, `PathOpener`,
    `Target`, `CommandPreview`, `OpenError`);
  - `command.rs` — planning the command for a path, an opener and a target;
  - `detect.rs` — reporting the openers of a platform;
  - `obsidian.rs` — `obsidian://` URIs and Obsidian's vaults;
  - `text.rs` — whitespace, case folding, decimal and percent-encoding;
  - `host.rs` — the trusted boundary: std path arithmetic and probes of the
    machine (`which`, `dirs`, file existence, canonicalization);
  - `builder/`, `error.rs`, `info.rs` — the git helpers.
- `app/` — ordinary Rust around the library: the platform check, reading
  Obsidian's config, spawning the planned processes, and the serde / specta / thiserror
  forms of the public types, and the `&Path`-taking `open` / `preview_command`
  functions that spawn or preview for the running machine.
- `tests/` — runtime tests of the library.

The platform and Obsidian's vaults are passed to the library in a `Host`
value; `app::host()` builds one for the running machine.
