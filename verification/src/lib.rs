//! Freight's toolchain library: the `$(...)` template expression language,
//! TOML template merging, the built-in compiler templates, and the pure
//! planning logic behind installing and packaging build outputs.

pub mod error;
pub mod text;
pub mod scan;
pub mod expr;
pub mod quick_kind;
pub mod template;
pub mod builtin;
pub mod index_map;
pub mod toml_doc;
pub mod toml_def;
pub mod handler_script;
pub mod install;
pub mod package;
pub mod vcpkg;
pub mod meta;
pub mod migration;
pub mod commands;
pub mod laws;
pub mod doc;
