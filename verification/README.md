# codex_plus_core

Verified core of the Codex++ helper: noticing that another program (such as
cc-switch) changed `config.toml`, recording write fingerprints of that file,
and finding the tool's entry points and companion executables on disk.

- `src/` is verified with Verus:
  - `text` — substring, prefix and suffix tests on characters;
  - `path` — paths as a root and components, and the file system as the
    directory listings and the system's answers about paths that exist;
  - `fingerprint` — the write fingerprint and the configuration hash
    (SHA-256 through the `sha2` crate);
  - `detect` — the four detection signals and their reasons;
  - `companion` — where the launcher and the manager executables are;
  - `install` — entry point candidates, their state, and action reports.
- `app/` does the I/O: it reads files, lists directories, asks the clock and
  the environment, converts `PathBuf`s, and holds the serde forms of the types.
- `tests/` runs the library on concrete values.
