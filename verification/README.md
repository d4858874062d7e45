# freight

The decision-making core of the `freight` build tool, written in Verus. Verus
checks every function under `src/`; the public ones carry `requires`/`ensures`
contracts that state their results, and the laws in `src/laws.rs` state what
holds across them.

## Layout

- `src/error.rs` — the errors of Freight's operations.
- `src/text.rs`, `src/scan.rs` — character-sequence helpers and the bracket /
  operator scanners used by the template expression language.
- `src/expr.rs` — the `$(...)` template expression evaluator (variables,
  `replace`, comparisons, version ordering, ternaries, `&&` / `||`).
- `src/quick_kind.rs` — classifying a TOML template by its `kind` line.
- `src/template.rs`, `src/builtin/` — compiler templates and the built-in
  template set.
- `src/toml_doc.rs`, `src/toml_def.rs`, `src/index_map.rs` — TOML template
  documents (insertion-ordered maps from `indexmap`), base merging and the
  evaluation of a document into a template definition.
- `src/handler_script.rs` — generation of the Rhai option-handler scripts; a
  script is kept only when `rhai` compiles it.
- `src/install.rs`, `src/package.rs` — install plans, archive naming, zip
  layout with CRC-32, launcher scripts and shared-dependency selection.
- `src/vcpkg.rs`, `src/meta.rs` — vcpkg triplets and library selection, CMake
  and autotools command planning.
- `src/commands.rs`, `src/migration.rs`, `src/doc.rs` — the decisions behind
  the `search`, `login`, `tui` and `completions` commands, and name sanitising.
- `src/laws.rs` — properties stated across functions, proved once for all
  inputs.
- `app/` — the command-line program: argument parsing, file and process I/O,
  TOML parsing with serde/toml_edit and running the Rhai handlers. It calls the
  library for every decision.
- `tests/` — executable tests of the library.
