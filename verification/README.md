# rustbasic_cli

The command-line tool of the RustBasic web framework (`rustbasic`): project
creation, code generators, migrations, a small package manager, builds for
Docker, desktop and Android, and deployment.

## Layout

- `src/` — the library, verified with Verus. It holds the tool's decisions
  and the files, arguments and paths it produces, each with a contract
  (the messages it prints stay with the binary):
  - `text.rs` — string and line operations with their specifications
    (`str::find`, `lines`, `trim`, `replace`, number parsing, …);
  - `utils.rs` — case conversion, cargo progress lines, menu input, URLs;
  - `progress.rs` — the progress display of a cargo build as a state machine;
  - `packages.rs` — the package registry, the manifest of installed
    packages, and the edits to `Cargo.toml`;
  - `templates.rs`, `scaffolding.rs` — the files that `make:*` writes and
    the `mod.rs` registrations;
  - `database.rs` — connection settings, session ids, the `APP_KEY` line;
  - `builder.rs`, `publisher.rs` — build and deploy decisions, and the
    configuration files that can be published;
  - `native.rs` — running and building the Android and desktop wrappers and
    compiling the JNI libraries, each as a session that names the next step
    and takes its outcome;
  - `cli.rs` — reading the command line.
- `app/` — the `rustbasic` binary: file, process, terminal and database work
  around the library; it performs the steps the sessions name.
- `tests/` — tests of the library on concrete values.
